//! The profile mutator and reader: badge creation overwrites exactly the
//! five badge fields of an authenticated identity's record, and profile
//! resolution projects a record down to its public-safe part, never
//! exposing the credential pair.

use vstd::prelude::*;

use crate::directory::{
    User, UserV, dir_view, find_user, id_match, lemma_find_user_hit, lemma_find_user_none, opt_seq,
};
use crate::errors::ApiError;
use crate::token::{TokenService, verify_outcome};

verus! {

/// The five badge fields a badge-creation request supplies, all required.
pub struct BadgeDetails {
    pub full_name: String,
    pub university: String,
    pub major: String,
    pub graduation_date: u64,
    pub github: String,
}

/// The mathematical shape of a badge-creation request.
#[verifier::ext_equal]
pub struct BadgeDetailsV {
    pub full_name: Seq<char>,
    pub university: Seq<char>,
    pub major: Seq<char>,
    pub graduation_date: u64,
    pub github: Seq<char>,
}

impl View for BadgeDetails {
    type V = BadgeDetailsV;

    open spec fn view(&self) -> BadgeDetailsV {
        BadgeDetailsV {
            full_name: self.full_name@,
            university: self.university@,
            major: self.major@,
            graduation_date: self.graduation_date,
            github: self.github@,
        }
    }
}

/// The public-safe projection of a record: the id and the five badge
/// fields. By construction it has no place for the email or the password.
pub struct Profile {
    pub id: String,
    pub full_name: Option<String>,
    pub university: Option<String>,
    pub major: Option<String>,
    pub graduation_date: Option<u64>,
    pub github: Option<String>,
}

/// The mathematical shape of a profile projection.
#[verifier::ext_equal]
pub struct ProfileV {
    pub id: Seq<char>,
    pub full_name: Option<Seq<char>>,
    pub university: Option<Seq<char>>,
    pub major: Option<Seq<char>>,
    pub graduation_date: Option<u64>,
    pub github: Option<Seq<char>>,
}

impl View for Profile {
    type V = ProfileV;

    open spec fn view(&self) -> ProfileV {
        ProfileV {
            id: self.id@,
            full_name: opt_seq(self.full_name),
            university: opt_seq(self.university),
            major: opt_seq(self.major),
            graduation_date: self.graduation_date,
            github: opt_seq(self.github),
        }
    }
}

/// A record after a badge update: the five badge fields replaced wholesale
/// by the submitted details, everything else untouched. An unconditional
/// overwrite, never a merge.
pub open spec fn with_badge(u: UserV, d: BadgeDetailsV) -> UserV {
    UserV {
        full_name: Some(d.full_name),
        university: Some(d.university),
        major: Some(d.major),
        graduation_date: Some(d.graduation_date),
        github: Some(d.github),
        ..u
    }
}

/// What a record shows through the profile reader: its id and badge fields,
/// and nothing of its credentials.
pub open spec fn projection(u: UserV) -> ProfileV {
    ProfileV {
        id: u.id->0,
        full_name: u.full_name,
        university: u.university,
        major: u.major,
        graduation_date: u.graduation_date,
        github: u.github,
    }
}

/// What badge creation decides once the token has named a subject: an empty
/// full name is rejected, a subject the directory no longer holds is
/// reported absent, and otherwise the subject's record gets the overwrite.
pub open spec fn badge_outcome(dir: Seq<UserV>, subject: Seq<char>, d: BadgeDetailsV) -> Result<
    UserV,
    ApiError,
> {
    if d.full_name.len() == 0 {
        Err(ApiError::Validation)
    } else {
        match find_user(dir, subject) {
            None => Err(ApiError::NotFound),
            Some(u) => Ok(with_badge(u, d)),
        }
    }
}

/// What the profile reader decides: the projection of the record `id`
/// names, or a report that no record carries it.
pub open spec fn profile_outcome(dir: Seq<UserV>, id: Seq<char>) -> Result<ProfileV, ApiError> {
    match find_user(dir, id) {
        None => Err(ApiError::NotFound),
        Some(u) => Ok(projection(u)),
    }
}

impl User {
    /// This record with the five badge fields overwritten by `details`.
    pub fn with_badge_applied(self, details: &BadgeDetails) -> (r: User)
        ensures
            r@ == with_badge(self@, details@),
    {
        let ghost before = self@;
        let r = User {
            email: self.email,
            password: self.password,
            id: self.id,
            full_name: Some(details.full_name.clone()),
            university: Some(details.university.clone()),
            major: Some(details.major.clone()),
            graduation_date: Some(details.graduation_date),
            github: Some(details.github.clone()),
        };
        proof {
            assert(r@ =~= with_badge(before, details@));
        }
        r
    }
}

/// Apply a badge-creation request: verify the token against the service at
/// time `now`, validate the details, locate the token's subject in the
/// snapshot `users`, and return its record with the five badge fields
/// overwritten, for the caller to persist as a field-scoped update. A
/// subject deleted since the token was issued is reported absent, never a
/// crash.
pub fn create_badge(
    users: &Vec<User>,
    token: &String,
    details: &BadgeDetails,
    service: &TokenService,
    now: u64,
) -> (r: Result<User, ApiError>)
    ensures
        match verify_outcome(token@, service@, now) {
            Err(_) => r == Err::<User, ApiError>(ApiError::Authentication),
            Ok(subject) => match badge_outcome(dir_view(users@), subject, details@) {
                Ok(u) => r matches Ok(x) && x@ == u,
                Err(e) => r == Err::<User, ApiError>(e),
            },
        },
{
    let subject = match service.verify(token, now) {
        Ok(s) => s,
        Err(_) => {
            return Err(ApiError::Authentication);
        },
    };
    if details.full_name.as_str().is_empty() {
        return Err(ApiError::Validation);
    }
    let ghost dir = dir_view(users@);
    let mut i: usize = 0;
    while i < users.len()
        invariant
            0 <= i <= users.len(),
            dir == dir_view(users@),
            verify_outcome(token@, service@, now) == Ok::<Seq<char>, ApiError>(subject@),
            details@.full_name.len() != 0,
            forall|j: int| 0 <= j < i ==> !id_match(#[trigger] dir[j], subject@),
        decreases users.len() - i,
    {
        let found = match &users[i].id {
            Some(stored) => *stored == subject,
            None => false,
        };
        if found {
            proof {
                assert(id_match(dir[i as int], subject@));
                lemma_find_user_hit(dir, subject@, i as int);
            }
            return Ok(users[i].duplicate().with_badge_applied(details));
        }
        i += 1;
    }
    proof {
        lemma_find_user_none(dir, subject@);
    }
    Err(ApiError::NotFound)
}

/// Resolve the public-safe projection of the record `id` names in the
/// snapshot `users`. Credentials never pass through this path.
pub fn get_profile(users: &Vec<User>, id: &String) -> (r: Result<Profile, ApiError>)
    ensures
        match profile_outcome(dir_view(users@), id@) {
            Ok(p) => r matches Ok(x) && x@ == p,
            Err(e) => r == Err::<Profile, ApiError>(e),
        },
{
    let ghost dir = dir_view(users@);
    let mut i: usize = 0;
    while i < users.len()
        invariant
            0 <= i <= users.len(),
            dir == dir_view(users@),
            forall|j: int| 0 <= j < i ==> !id_match(#[trigger] dir[j], id@),
        decreases users.len() - i,
    {
        let found = match &users[i].id {
            Some(stored) => *stored == *id,
            None => false,
        };
        if found {
            proof {
                assert(id_match(dir[i as int], id@));
                lemma_find_user_hit(dir, id@, i as int);
            }
            let u = &users[i];
            let p = Profile {
                id: id.clone(),
                full_name: match &u.full_name {
                    Some(s) => Some(s.clone()),
                    None => None,
                },
                university: match &u.university {
                    Some(s) => Some(s.clone()),
                    None => None,
                },
                major: match &u.major {
                    Some(s) => Some(s.clone()),
                    None => None,
                },
                graduation_date: u.graduation_date,
                github: match &u.github {
                    Some(s) => Some(s.clone()),
                    None => None,
                },
            };
            proof {
                assert(p@ =~= projection(dir[i as int]));
            }
            return Ok(p);
        }
        i += 1;
    }
    proof {
        lemma_find_user_none(dir, id@);
    }
    Err(ApiError::NotFound)
}

} // verus!
