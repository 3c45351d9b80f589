//! The identity registrar: enforces the one-account-per-email rule at
//! signup and authenticates credential pairs at login. Both work on a
//! snapshot of the directory handed in by the caller; the existence check
//! and the caller's subsequent insert are therefore not atomic, a
//! documented gap of the design.

use vstd::prelude::*;

use crate::directory::{
    User, UserV, cred_match, dir_view, email_taken, find_credentials,
    lemma_find_credentials_hit, lemma_find_credentials_none,
};
use crate::errors::ApiError;

verus! {

/// Relies on uuid::Uuid::new_v4 and its hyphenated rendering: a freshly
/// drawn random identifier, 36 characters long. The draw is random, so
/// nothing relates one call's result to another's.
#[verifier::external_body]
fn fresh_id() -> (r: String)
    ensures
        r@.len() == 36,
{
    uuid::Uuid::new_v4().to_string()
}

/// The record a successful signup persists: the given credentials under a
/// fresh id, every badge field still absent.
pub open spec fn fresh_user(email: Seq<char>, password: Seq<char>, id: Seq<char>) -> UserV {
    UserV {
        email: email,
        password: password,
        id: Some(id),
        full_name: None,
        university: None,
        major: None,
        graduation_date: None,
        github: None,
    }
}

/// What signup decides on a directory snapshot, given the id a success
/// would mint: empty credentials are rejected, a taken email is a conflict,
/// and otherwise the fresh record is created.
pub open spec fn signup_outcome(
    dir: Seq<UserV>,
    email: Seq<char>,
    password: Seq<char>,
    id: Seq<char>,
) -> Result<UserV, ApiError> {
    if email.len() == 0 || password.len() == 0 {
        Err(ApiError::Validation)
    } else if email_taken(dir, email) {
        Err(ApiError::Conflict)
    } else {
        Ok(fresh_user(email, password, id))
    }
}

/// Register a new identity against the snapshot `users`: reject empty
/// credentials, refuse an email the directory already holds, and otherwise
/// return the fresh record, under a newly drawn id, for the caller to
/// persist. The scan and the caller's insert are two steps; nothing here
/// makes them atomic.
pub fn signup(users: &Vec<User>, email: &String, password: &String) -> (r: Result<User, ApiError>)
    ensures
        r matches Ok(u) ==> (u@.id matches Some(nid) && nid.len() == 36 && Ok::<UserV, ApiError>(
            u@,
        ) == signup_outcome(dir_view(users@), email@, password@, nid)),
        r matches Err(e) ==> forall|nid: Seq<char>|
            #[trigger] signup_outcome(dir_view(users@), email@, password@, nid) == Err::<
                UserV,
                ApiError,
            >(e),
{
    if email.as_str().is_empty() || password.as_str().is_empty() {
        return Err(ApiError::Validation);
    }
    let ghost dir = dir_view(users@);
    let mut i: usize = 0;
    while i < users.len()
        invariant
            0 <= i <= users.len(),
            dir == dir_view(users@),
            email@.len() != 0 && password@.len() != 0,
            forall|j: int| 0 <= j < i ==> #[trigger] dir[j].email != email@,
        decreases users.len() - i,
    {
        if users[i].email == *email {
            assert(dir[i as int].email == email@);
            assert(email_taken(dir, email@));
            return Err(ApiError::Conflict);
        }
        i += 1;
    }
    assert(!email_taken(dir, email@));
    let id = fresh_id();
    let user = User {
        email: email.clone(),
        password: password.clone(),
        id: Some(id),
        full_name: None,
        university: None,
        major: None,
        graduation_date: None,
        github: None,
    };
    proof {
        assert(user@ =~= fresh_user(email@, password@, user@.id->0));
    }
    Ok(user)
}

/// Authenticate a credential pair against the snapshot `users`: return the
/// first record whose email and password both match, or refuse without
/// saying which of the two was wrong.
pub fn login(users: &Vec<User>, email: &String, password: &String) -> (r: Result<User, ApiError>)
    ensures
        match find_credentials(dir_view(users@), email@, password@) {
            Some(u) => r matches Ok(x) && x@ == u,
            None => r == Err::<User, ApiError>(ApiError::Authentication),
        },
{
    let ghost dir = dir_view(users@);
    let mut i: usize = 0;
    while i < users.len()
        invariant
            0 <= i <= users.len(),
            dir == dir_view(users@),
            forall|j: int| 0 <= j < i ==> !cred_match(#[trigger] dir[j], email@, password@),
        decreases users.len() - i,
    {
        if users[i].email == *email && users[i].password == *password {
            proof {
                assert(cred_match(dir[i as int], email@, password@));
                lemma_find_credentials_hit(dir, email@, password@, i as int);
            }
            return Ok(users[i].duplicate());
        }
        i += 1;
    }
    proof {
        lemma_find_credentials_none(dir, email@, password@);
    }
    Err(ApiError::Authentication)
}

} // verus!
