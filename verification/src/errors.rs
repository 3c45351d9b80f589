//! The failure taxonomy shared by every operation of the subsystem.

use vstd::prelude::*;

verus! {

/// How an operation of the subsystem can fail.
///
/// - `Validation`: malformed or empty input, user-correctable.
/// - `Conflict`: a signup would duplicate an existing email.
/// - `Authentication`: credentials match no record, or a badge request
///   carries a missing, malformed or expired token.
/// - `NotFound`: a referenced record id is absent from the directory.
/// - `Store`: the directory store adapter failed; raised by the caller that
///   performs the round trip, never by the library itself.
/// - `Signing`: the token infrastructure could not be used to sign a claims
///   set; the library's own symmetric signing path cannot fail, so this is
///   raised only by callers guarding its preconditions.
/// - `InvalidToken`: token verification rejected the token, for a bad
///   signature, a malformed payload, or a passed expiry.
#[derive(Clone, Copy, Debug, PartialEq, Eq, Structural)]
pub enum ApiError {
    Validation,
    Conflict,
    Authentication,
    NotFound,
    Store,
    Signing,
    InvalidToken,
}

} // verus!
