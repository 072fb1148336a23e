//! The failure taxonomy of the core. Authentication and authorization
//! failures carry no internal detail: a caller sees only the kind.

use vstd::prelude::*;

verus! {

/// Every way an operation of the core can fail.
///
/// `CredentialMismatch` covers both a wrong password and an unknown email,
/// so the two are indistinguishable to a client. `OwnershipDenied` covers
/// both a missing record and a record owned by someone else, for the same
/// reason. `TokenInvalid` and `TokenExpired` are distinct internally but
/// both mean "unauthorized" to a client.
#[derive(Clone, Copy, Debug, PartialEq, Eq, Structural)]
pub enum AuthError {
    /// Wrong password or unknown email, reported identically.
    CredentialMismatch,
    /// The one-way hash of a password could not be computed; registration
    /// aborts rather than fall back to storing plaintext.
    HashingFailure,
    /// A token with a bad signature, malformed structure, or unsupported
    /// algorithm.
    TokenInvalid,
    /// A structurally valid, correctly signed token whose expiration time
    /// has passed.
    TokenExpired,
    /// A mutation was refused: the record does not exist or belongs to a
    /// different owner, reported identically.
    OwnershipDenied,
    /// The datastore itself rejected or failed the call; surfaced as an
    /// opaque server error.
    StoreUnavailable,
}

impl AuthError {
    /// The client-visible description of the failure: only the kind, never
    /// internal detail.
    pub fn message(&self) -> (r: &'static str)
        ensures
            *self is CredentialMismatch ==> r@ == "invalid credentials"@,
            (*self is TokenInvalid || *self is TokenExpired) ==> r@ == "unauthorized"@,
            *self is OwnershipDenied ==> r@ == "not allowed"@,
            (*self is HashingFailure || *self is StoreUnavailable) ==> r@ == "server error"@,
    {
        match self {
            AuthError::CredentialMismatch => "invalid credentials",
            AuthError::TokenInvalid => "unauthorized",
            AuthError::TokenExpired => "unauthorized",
            AuthError::OwnershipDenied => "not allowed",
            AuthError::HashingFailure => "server error",
            AuthError::StoreUnavailable => "server error",
        }
    }
}

} // verus!
