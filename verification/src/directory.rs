//! The user directory model: the persisted record, its mathematical view,
//! and the lookup semantics every operation builds on. A directory value is
//! a snapshot of the full collection, fetched by the caller; the library
//! never talks to the store itself.

use vstd::prelude::*;

use crate::errors::ApiError;
use crate::token::{TokenService, WEEK_IN_SECONDS, signed_token, token_claims, ClaimsV};

verus! {

/// The single persisted entity: a credential pair, the system-assigned id,
/// and the five optional badge-profile fields.
pub struct User {
    /// Uniqueness key within the directory.
    pub email: String,
    /// Compared for equality as an opaque string; this design does not hash.
    pub password: String,
    /// Assigned by the system at creation, never client-supplied.
    pub id: Option<String>,
    pub full_name: Option<String>,
    pub university: Option<String>,
    pub major: Option<String>,
    pub graduation_date: Option<u64>,
    pub github: Option<String>,
}

/// The mathematical shape of a record.
#[verifier::ext_equal]
pub struct UserV {
    pub email: Seq<char>,
    pub password: Seq<char>,
    pub id: Option<Seq<char>>,
    pub full_name: Option<Seq<char>>,
    pub university: Option<Seq<char>>,
    pub major: Option<Seq<char>>,
    pub graduation_date: Option<u64>,
    pub github: Option<Seq<char>>,
}

/// The view of an optional string field.
pub open spec fn opt_seq(o: Option<String>) -> Option<Seq<char>> {
    match o {
        Some(s) => Some(s@),
        None => None,
    }
}

impl View for User {
    type V = UserV;

    open spec fn view(&self) -> UserV {
        UserV {
            email: self.email@,
            password: self.password@,
            id: opt_seq(self.id),
            full_name: opt_seq(self.full_name),
            university: opt_seq(self.university),
            major: opt_seq(self.major),
            graduation_date: self.graduation_date,
            github: opt_seq(self.github),
        }
    }
}

/// The directory a vector of records stands for.
pub open spec fn dir_view(users: Seq<User>) -> Seq<UserV> {
    Seq::new(users.len(), |i: int| users[i]@)
}

/// Whether some record of `dir` already carries `email`.
pub open spec fn email_taken(dir: Seq<UserV>, email: Seq<char>) -> bool {
    exists|i: int| 0 <= i < dir.len() && #[trigger] dir[i].email == email
}

/// Whether `u` matches the supplied credential pair, both by exact string
/// equality.
pub open spec fn cred_match(u: UserV, email: Seq<char>, password: Seq<char>) -> bool {
    u.email == email && u.password == password
}

/// The first record of `dir` whose credentials match, if any: the lookup
/// login performs.
pub open spec fn find_credentials(dir: Seq<UserV>, email: Seq<char>, password: Seq<char>) -> Option<
    UserV,
>
    decreases dir.len(),
{
    if dir.len() == 0 {
        None
    } else if cred_match(dir[0], email, password) {
        Some(dir[0])
    } else {
        find_credentials(dir.drop_first(), email, password)
    }
}

/// Whether `u` is the record `id` names.
pub open spec fn id_match(u: UserV, id: Seq<char>) -> bool {
    u.id == Some(id)
}

/// The first record of `dir` with the given id, if any.
pub open spec fn find_user(dir: Seq<UserV>, id: Seq<char>) -> Option<UserV>
    decreases dir.len(),
{
    if dir.len() == 0 {
        None
    } else if id_match(dir[0], id) {
        Some(dir[0])
    } else {
        find_user(dir.drop_first(), id)
    }
}

/// When no record matches the credentials, the lookup comes up empty.
pub proof fn lemma_find_credentials_none(dir: Seq<UserV>, email: Seq<char>, password: Seq<char>)
    requires
        forall|j: int| 0 <= j < dir.len() ==> !cred_match(#[trigger] dir[j], email, password),
    ensures
        find_credentials(dir, email, password) is None,
    decreases dir.len(),
{
    if dir.len() > 0 {
        assert(forall|j: int|
            0 <= j < dir.drop_first().len() ==> dir.drop_first()[j] == dir[j + 1]);
        lemma_find_credentials_none(dir.drop_first(), email, password);
    }
}

/// When index `i` holds the first credential match, the lookup returns it.
pub proof fn lemma_find_credentials_hit(
    dir: Seq<UserV>,
    email: Seq<char>,
    password: Seq<char>,
    i: int,
)
    requires
        0 <= i < dir.len(),
        cred_match(dir[i], email, password),
        forall|j: int| 0 <= j < i ==> !cred_match(#[trigger] dir[j], email, password),
    ensures
        find_credentials(dir, email, password) == Some(dir[i]),
    decreases i,
{
    if i > 0 {
        assert(forall|j: int|
            0 <= j < dir.drop_first().len() ==> dir.drop_first()[j] == dir[j + 1]);
        lemma_find_credentials_hit(dir.drop_first(), email, password, i - 1);
    }
}

/// When no record carries the id, the lookup comes up empty.
pub proof fn lemma_find_user_none(dir: Seq<UserV>, id: Seq<char>)
    requires
        forall|j: int| 0 <= j < dir.len() ==> !id_match(#[trigger] dir[j], id),
    ensures
        find_user(dir, id) is None,
    decreases dir.len(),
{
    if dir.len() > 0 {
        assert(forall|j: int|
            0 <= j < dir.drop_first().len() ==> dir.drop_first()[j] == dir[j + 1]);
        lemma_find_user_none(dir.drop_first(), id);
    }
}

/// When index `i` holds the first record with the id, the lookup returns it.
pub proof fn lemma_find_user_hit(dir: Seq<UserV>, id: Seq<char>, i: int)
    requires
        0 <= i < dir.len(),
        id_match(dir[i], id),
        forall|j: int| 0 <= j < i ==> !id_match(#[trigger] dir[j], id),
    ensures
        find_user(dir, id) == Some(dir[i]),
    decreases i,
{
    if i > 0 {
        assert(forall|j: int|
            0 <= j < dir.drop_first().len() ==> dir.drop_first()[j] == dir[j + 1]);
        lemma_find_user_hit(dir.drop_first(), id, i - 1);
    }
}

/// A field-for-field copy of an optional string.
fn clone_opt_string(o: &Option<String>) -> (r: Option<String>)
    ensures
        r == *o,
{
    match o {
        Some(s) => Some(s.clone()),
        None => None,
    }
}

impl User {
    /// A field-for-field copy of this record.
    pub fn duplicate(&self) -> (r: User)
        ensures
            r == *self,
    {
        User {
            email: self.email.clone(),
            password: self.password.clone(),
            id: clone_opt_string(&self.id),
            full_name: clone_opt_string(&self.full_name),
            university: clone_opt_string(&self.university),
            major: clone_opt_string(&self.major),
            graduation_date: self.graduation_date,
            github: clone_opt_string(&self.github),
        }
    }

    /// Sign a token for this record, valid from `now` for one week. The
    /// record must already be persisted, that is, carry its system-assigned
    /// id: that id becomes the token's subject, and a token is always
    /// returned.
    pub fn encode(&self, service: &TokenService, now: u64) -> (r: Result<String, ApiError>)
        requires
            self@.id is Some,
            now + WEEK_IN_SECONDS <= u64::MAX,
        ensures
            r is Ok,
            r matches Ok(t) ==> t@ == signed_token(
                now,
                (now + WEEK_IN_SECONDS) as u64,
                self@.id->0,
                service@,
            ),
            r matches Ok(t) ==> token_claims(t@, service@) == Some(
                ClaimsV { iat: now, exp: (now + WEEK_IN_SECONDS) as u64, id: self@.id->0 },
            ),
    {
        service.issue(self.id.as_ref().unwrap(), now)
    }
}

} // verus!
