//! The token service: issues and verifies signed, time-bounded identity
//! tokens. A token carries an issued-at timestamp, an expiry one validity
//! window later, and the subject's record id. The clock is injected: every
//! operation takes the current time as an argument, so expiry is decided
//! here, strictly and with no leeway, rather than inside the signing crate.

use vstd::prelude::*;

use crate::errors::ApiError;

verus! {

/// Seconds a token stays valid after issue: one week.
pub const WEEK_IN_SECONDS: u64 = 604800;

/// The claims set carried by an identity token.
pub struct Claims {
    /// When the token was issued, seconds since the epoch.
    pub iat: u64,
    /// When the token stops being valid, seconds since the epoch.
    pub exp: u64,
    /// The subject: the record id the token speaks for.
    pub id: String,
}

/// The mathematical shape of a claims set.
#[verifier::ext_equal]
pub struct ClaimsV {
    pub iat: u64,
    pub exp: u64,
    pub id: Seq<char>,
}

impl View for Claims {
    type V = ClaimsV;

    open spec fn view(&self) -> ClaimsV {
        ClaimsV { iat: self.iat, exp: self.exp, id: self.id@ }
    }
}

/// The token that signing a claims set with a secret produces. The signing
/// scheme is deterministic, so the token is a function of these arguments
/// alone.
pub uninterp spec fn signed_token(iat: u64, exp: u64, id: Seq<char>, secret: Seq<u8>) -> Seq<char>;

/// What decoding a token against a secret yields: the embedded claims when
/// the signature matches and the payload is well formed, nothing otherwise.
pub uninterp spec fn token_claims(token: Seq<char>, secret: Seq<u8>) -> Option<ClaimsV>;

/// What verification decides at time `now`: the subject id of a token whose
/// signature checks out and whose expiry has not passed, and a rejection in
/// every other case.
pub open spec fn verify_outcome(token: Seq<char>, secret: Seq<u8>, now: u64) -> Result<
    Seq<char>,
    ApiError,
> {
    match token_claims(token, secret) {
        Some(c) => {
            if now > c.exp {
                Err(ApiError::InvalidToken)
            } else {
                Ok(c.id)
            }
        },
        None => Err(ApiError::InvalidToken),
    }
}

/// Relies on jsonwebtoken::encode with the default header: the claims are
/// serialized and signed symmetrically with the secret, so the token depends
/// on the arguments alone; a token it signs decodes back, under the same
/// secret, to exactly the claims that were signed. For this use the call
/// cannot fail: the key family always matches the default header's
/// algorithm, serializing a string-keyed claims object is infallible, and
/// symmetric signing always succeeds.
#[verifier::external_body]
fn jwt_encode(iat: u64, exp: u64, id: &String, secret: &Vec<u8>) -> (r: Option<String>)
    ensures
        r is Some,
        r matches Some(t) ==> t@ == signed_token(iat, exp, id@, secret@),
        r matches Some(t) ==> token_claims(t@, secret@) == Some(ClaimsV { iat, exp, id: id@ }),
{
    let mut claims = serde_json::Map::new();
    claims.insert("iat".to_string(), serde_json::Value::from(iat));
    claims.insert("exp".to_string(), serde_json::Value::from(exp));
    claims.insert("id".to_string(), serde_json::Value::from(id.clone()));
    jsonwebtoken::encode(
        &jsonwebtoken::Header::default(),
        &serde_json::Value::Object(claims),
        &jsonwebtoken::EncodingKey::from_secret(secret),
    )
    .ok()
}

/// Relies on jsonwebtoken::decode: the signature is checked against the
/// secret and the claims are read back out, a deterministic function of the
/// token and the secret. A token that `jwt_encode` signed with the same
/// secret decodes to exactly the claims that were signed. Expiry checking is
/// switched off here; the caller decides expiry against its own clock.
#[verifier::external_body]
fn jwt_decode(token: &String, secret: &Vec<u8>) -> (r: Option<Claims>)
    ensures
        r matches Some(c) ==> token_claims(token@, secret@) == Some(c@),
        r is None ==> token_claims(token@, secret@) is None,
{
    let mut validation = jsonwebtoken::Validation::default();
    validation.validate_exp = false;
    validation.required_spec_claims.clear();
    let data = jsonwebtoken::decode::<serde_json::Value>(
        token,
        &jsonwebtoken::DecodingKey::from_secret(secret),
        &validation,
    )
    .ok()?;
    let iat = data.claims.get("iat")?.as_u64()?;
    let exp = data.claims.get("exp")?.as_u64()?;
    let id = data.claims.get("id")?.as_str()?.to_string();
    Some(Claims { iat, exp, id })
}

/// The token service: holds the process-wide signing secret, injected once
/// at construction and never read from the environment here.
pub struct TokenService {
    secret: Vec<u8>,
}

impl View for TokenService {
    type V = Seq<u8>;

    closed spec fn view(&self) -> Seq<u8> {
        self.secret@
    }
}

impl TokenService {
    /// A service that signs and verifies with `secret`.
    pub fn new(secret: Vec<u8>) -> (r: TokenService)
        ensures
            r@ == secret@,
    {
        TokenService { secret }
    }

    /// Issue a token for `subject`, valid from `now` for one week. Signing
    /// with a symmetric secret always succeeds, so a token is always
    /// returned.
    pub fn issue(&self, subject: &String, now: u64) -> (r: Result<String, ApiError>)
        requires
            now + WEEK_IN_SECONDS <= u64::MAX,
        ensures
            r is Ok,
            r matches Ok(t) ==> t@ == signed_token(now, (now + WEEK_IN_SECONDS) as u64, subject@, self@),
            r matches Ok(t) ==> token_claims(t@, self@) == Some(
                ClaimsV { iat: now, exp: (now + WEEK_IN_SECONDS) as u64, id: subject@ },
            ),
    {
        Ok(jwt_encode(now, now + WEEK_IN_SECONDS, subject, &self.secret).unwrap())
    }

    /// Verify `token` at time `now`: check the signature against the secret
    /// and reject a token whose expiry has passed. Strict expiry, no leeway:
    /// a token is accepted exactly while `now <= exp`. On success the
    /// subject id is returned; a token issued by this service and still
    /// inside its window always verifies back to the id it was issued for,
    /// and an issued token whose window has passed is always rejected.
    pub fn verify(&self, token: &String, now: u64) -> (r: Result<String, ApiError>)
        ensures
            match verify_outcome(token@, self@, now) {
                Ok(id) => r matches Ok(s) && s@ == id,
                Err(e) => r == Err::<String, ApiError>(e),
            },
    {
        match jwt_decode(token, &self.secret) {
            Some(c) => {
                if now > c.exp {
                    Err(ApiError::InvalidToken)
                } else {
                    Ok(c.id)
                }
            },
            None => Err(ApiError::InvalidToken),
        }
    }
}

} // verus!
