//! CredentialStore: salted one-way password hashing and verification.
//!
//! A stored credential is the output of a cost-parameterized bcrypt hash; it
//! embeds its own algorithm version, cost and salt. Verification recomputes
//! the hash with the embedded parameters and compares in constant time; a
//! malformed stored hash presents exactly like a wrong password.

use vstd::prelude::*;

use crate::errors::AuthError;

verus! {

/// Whether bcrypt's check accepts `password` against the stored hash
/// `hashed`. This is a pure function of the two strings: verification
/// re-derives everything it needs (version, cost, salt) from `hashed`
/// itself. For a string that is not a well-formed bcrypt hash it is false,
/// matching the executable behaviour below.
pub uninterp spec fn bcrypt_accepts(password: Seq<char>, hashed: Seq<char>) -> bool;

/// Relies on bcrypt::hash at bcrypt::DEFAULT_COST: on success the result is
/// a well-formed bcrypt hash of `plaintext` under a freshly drawn random
/// salt, which bcrypt::verify accepts against `plaintext`. The salt comes
/// from the OS random source, so nothing relates the results of two calls;
/// the call fails only if that source fails or the fixed cost were out of
/// range.
#[verifier::external_body]
fn bcrypt_hash(plaintext: &str) -> (r: Option<String>)
    ensures
        r matches Some(h) ==> bcrypt_accepts(plaintext@, h@),
{
    bcrypt::hash(plaintext, bcrypt::DEFAULT_COST).ok()
}

/// Relies on bcrypt::verify: deterministic in its two arguments, comparing
/// the recomputed hash in constant time. An error (raised only for a
/// malformed `hashed`) is collapsed to false, so a corrupted stored hash is
/// indistinguishable from a wrong password.
#[verifier::external_body]
fn bcrypt_check(plaintext: &str, hashed: &str) -> (r: bool)
    ensures
        r == bcrypt_accepts(plaintext@, hashed@),
{
    bcrypt::verify(plaintext, hashed).unwrap_or(false)
}

/// Hashes a plaintext password into its storable credential form.
///
/// Every successful result verifies against the plaintext it was derived
/// from. Failure is a hard stop (`HashingFailure`): a failed hash must never
/// fall back to storing plaintext.
pub fn hash(plaintext: &str) -> (r: Result<String, AuthError>)
    ensures
        r matches Ok(h) ==> bcrypt_accepts(plaintext@, h@),
        r matches Err(e) ==> e == AuthError::HashingFailure,
{
    match bcrypt_hash(plaintext) {
        Some(h) => Ok(h),
        None => Err(AuthError::HashingFailure),
    }
}

/// Law: a password verifies against the hash just derived from it. For any
/// plaintext whose hashing succeeds, the stored form is accepted by
/// `verify` — so a credential written by `hash` can always be logged in
/// with. The result is `None` exactly when hashing itself failed.
pub fn credential_round_trip(plaintext: &str) -> (r: Option<bool>)
    ensures
        r matches Some(accepted) ==> accepted,
{
    match hash(plaintext) {
        Ok(stored) => Some(verify(plaintext, stored.as_str())),
        Err(_) => None,
    }
}

/// Verifies a plaintext password against a stored hash.
///
/// Returns exactly whether bcrypt accepts the pair; it never raises, and a
/// malformed stored hash yields false just as a wrong password does.
pub fn verify(plaintext: &str, stored_hash: &str) -> (r: bool)
    ensures
        r == bcrypt_accepts(plaintext@, stored_hash@),
{
    bcrypt_check(plaintext, stored_hash)
}

} // verus!
