//! The subsystem's cross-cutting guarantees, stated and proved over the
//! mathematical model that the operations' own contracts use.

use vstd::prelude::*;

use crate::directory::{UserV, cred_match, find_credentials};
use crate::errors::ApiError;
use crate::profiles::{BadgeDetailsV, ProfileV, projection, with_badge};
use crate::registrar::{fresh_user, signup_outcome};
use crate::token::{ClaimsV, token_claims, verify_outcome};

verus! {

/// A token that decodes to a claims set — as every token the service issues
/// does, with its subject as the id — verifies back to that subject at any
/// time up to its expiry.
pub proof fn lemma_issued_token_verifies(
    token: Seq<char>,
    secret: Seq<u8>,
    claims: ClaimsV,
    now: u64,
)
    requires
        token_claims(token, secret) == Some(claims),
        now <= claims.exp,
    ensures
        verify_outcome(token, secret, now) == Ok::<Seq<char>, ApiError>(claims.id),
{
}

/// A token whose expiry has passed is rejected, even though its signature
/// still checks out.
pub proof fn lemma_expired_token_rejected(
    token: Seq<char>,
    secret: Seq<u8>,
    claims: ClaimsV,
    now: u64,
)
    requires
        token_claims(token, secret) == Some(claims),
        now > claims.exp,
    ensures
        verify_outcome(token, secret, now) == Err::<Seq<char>, ApiError>(ApiError::InvalidToken),
{
}

/// Login finds a record exactly when one matches the supplied credentials:
/// what it finds is a stored record carrying that email and password, and
/// when it finds nothing, no stored record matches.
pub proof fn lemma_login_correctness(dir: Seq<UserV>, email: Seq<char>, password: Seq<char>)
    ensures
        match find_credentials(dir, email, password) {
            Some(u) => cred_match(u, email, password) && exists|i: int|
                0 <= i < dir.len() && dir[i] == u,
            None => forall|i: int|
                0 <= i < dir.len() ==> !cred_match(#[trigger] dir[i], email, password),
        },
    decreases dir.len(),
{
    if dir.len() > 0 {
        if cred_match(dir[0], email, password) {
            assert(find_credentials(dir, email, password) == Some(dir[0]));
            assert(0 <= 0 < dir.len() && dir[0] == dir[0]);
        } else {
            assert(forall|j: int|
                0 <= j < dir.drop_first().len() ==> dir.drop_first()[j] == dir[j + 1]);
            lemma_login_correctness(dir.drop_first(), email, password);
            match find_credentials(dir.drop_first(), email, password) {
                Some(u) => {
                    let i = choose|i: int|
                        0 <= i < dir.drop_first().len() && dir.drop_first()[i] == u;
                    assert(dir[i + 1] == u);
                },
                None => {
                    assert forall|i: int|
                        0 <= i < dir.len() implies !cred_match(
                        #[trigger] dir[i],
                        email,
                        password,
                    ) by {
                        if i > 0 {
                            assert(dir.drop_first()[i - 1] == dir[i]);
                        }
                    }
                },
            }
        }
    }
}

/// The directory invariant: at most one record per email, and every
/// persisted record carries its system-assigned id.
pub open spec fn dir_wf(dir: Seq<UserV>) -> bool {
    &&& forall|i: int, j: int|
        0 <= i < j < dir.len() ==> (#[trigger] dir[i]).email != (#[trigger] dir[j]).email
    &&& forall|i: int| 0 <= i < dir.len() ==> (#[trigger] dir[i]).id is Some
}

/// Two signups in sequence with the same email: when the first succeeds and
/// its record is added to the directory, the second is refused as a
/// conflict, whatever password and fresh id it brings.
pub proof fn lemma_duplicate_signup_conflicts(
    dir: Seq<UserV>,
    email: Seq<char>,
    password1: Seq<char>,
    password2: Seq<char>,
    id1: Seq<char>,
    id2: Seq<char>,
)
    requires
        signup_outcome(dir, email, password1, id1) is Ok,
        password2.len() != 0,
    ensures
        signup_outcome(
            dir.push(signup_outcome(dir, email, password1, id1)->Ok_0),
            email,
            password2,
            id2,
        ) == Err::<UserV, ApiError>(ApiError::Conflict),
{
    let u = signup_outcome(dir, email, password1, id1)->Ok_0;
    let grown = dir.push(u);
    assert(grown[dir.len() as int].email == email);
}

/// A successful signup keeps the directory invariant: the new record's
/// email was free, and it arrives with its id.
pub proof fn lemma_signup_preserves_wf(
    dir: Seq<UserV>,
    email: Seq<char>,
    password: Seq<char>,
    id: Seq<char>,
)
    requires
        dir_wf(dir),
        signup_outcome(dir, email, password, id) is Ok,
    ensures
        dir_wf(dir.push(signup_outcome(dir, email, password, id)->Ok_0)),
{
    let u = signup_outcome(dir, email, password, id)->Ok_0;
    let grown = dir.push(u);
    assert forall|i: int, j: int| 0 <= i < j < grown.len() implies (#[trigger] grown[i]).email != (
    #[trigger] grown[j]).email by {
        if j == dir.len() {
            assert(grown[i] == dir[i]);
        }
    }
    assert(forall|i: int| 0 <= i < grown.len() ==> (#[trigger] grown[i]).id is Some);
}

/// A second badge update leaves exactly its own field values: the overwrite
/// replaces whatever any earlier update set, never merging with it.
pub proof fn lemma_badge_overwrite(u: UserV, first: BadgeDetailsV, second: BadgeDetailsV)
    ensures
        with_badge(with_badge(u, first), second) == with_badge(u, second),
{
    assert(with_badge(with_badge(u, first), second) =~= with_badge(u, second));
}

/// The profile projection is blind to credentials: two records that agree
/// on everything outside their email and password project identically, so
/// nothing of the credential pair reaches a profile reader.
pub proof fn lemma_projection_excludes_credentials(a: UserV, b: UserV)
    requires
        a.id == b.id,
        a.full_name == b.full_name,
        a.university == b.university,
        a.major == b.major,
        a.graduation_date == b.graduation_date,
        a.github == b.github,
    ensures
        projection(a) == projection(b),
{
    assert(projection(a) =~= projection(b));
}

/// A record fresh from signup projects to a profile with every badge field
/// still absent.
pub proof fn lemma_fresh_profile_empty(email: Seq<char>, password: Seq<char>, id: Seq<char>)
    ensures
        projection(fresh_user(email, password, id)) == (ProfileV {
            id: id,
            full_name: None,
            university: None,
            major: None,
            graduation_date: None,
            github: None,
        }),
{
    assert(projection(fresh_user(email, password, id)) =~= ProfileV {
        id: id,
        full_name: None,
        university: None,
        major: None,
        graduation_date: None,
        github: None,
    });
}

/// After a badge update, the projection shows exactly the submitted
/// details under the record's id.
pub proof fn lemma_badge_profile(u: UserV, d: BadgeDetailsV)
    ensures
        projection(with_badge(u, d)) == (ProfileV {
            id: u.id->0,
            full_name: Some(d.full_name),
            university: Some(d.university),
            major: Some(d.major),
            graduation_date: Some(d.graduation_date),
            github: Some(d.github),
        }),
{
    assert(projection(with_badge(u, d)) =~= ProfileV {
        id: u.id->0,
        full_name: Some(d.full_name),
        university: Some(d.university),
        major: Some(d.major),
        graduation_date: Some(d.graduation_date),
        github: Some(d.github),
    });
}

} // verus!
