//! AuthSession and OwnershipGuard: the authenticated identity of one
//! request, and the check binding a mutation to a record's recorded owner.
//!
//! A session is derived exclusively from a validated token's subject claim,
//! never from an id a request path or body supplies: authorization must
//! derive only from who the token says the caller is.

use vstd::prelude::*;

use crate::errors::AuthError;
use crate::token::Claims;
use crate::token::TokenIssuer;
use crate::token::decoded_claims;

verus! {

/// The authenticated identity attached to one request.
#[derive(Clone, Copy, Debug, PartialEq, Eq, Structural)]
pub struct AuthSession {
    pub user_id: i32,
}

/// Derives the session identity from validated claims. This is the only
/// constructor of an `AuthSession`: the identity comes from the token's
/// subject, nowhere else.
pub fn session_from_claims(claims: &Claims) -> (s: AuthSession)
    ensures
        s.user_id == claims.sub,
{
    AuthSession { user_id: claims.sub }
}

/// Authenticates a bearer token: validates it against the issuer's secret
/// and the caller's clock reading, and derives the session from its claims.
///
/// A session is handed out exactly for a token that decodes and has not
/// expired, and carries the subject id that token's claims name; an
/// invalid or expired token yields the corresponding authorization
/// failure, never a generic error.
pub fn authenticate(issuer: &TokenIssuer, token: &str, now: u64) -> (r: Result<
    AuthSession,
    AuthError,
>)
    ensures
        r matches Ok(s) ==> (decoded_claims(token@, issuer.secret()) matches Some(c) && c.exp > now
            && s.user_id as int == c.sub),
        r is Ok <==> (decoded_claims(token@, issuer.secret()) matches Some(c) && c.exp > now),
        (r == Err::<AuthSession, AuthError>(AuthError::TokenInvalid)) <==> decoded_claims(
            token@,
            issuer.secret(),
        ) is None,
        (r == Err::<AuthSession, AuthError>(AuthError::TokenExpired)) <==> (decoded_claims(
            token@,
            issuer.secret(),
        ) matches Some(c) && c.exp <= now),
{
    match issuer.validate(token, now) {
        Ok(claims) => Ok(session_from_claims(&claims)),
        Err(e) => Err(e),
    }
}

/// OwnershipGuard: authorizes a mutation exactly when the session's user is
/// the resource's recorded owner. Denial carries no further detail.
pub fn authorize_mutation(session: &AuthSession, resource_owner_id: i32) -> (r: Result<
    (),
    AuthError,
>)
    ensures
        r is Ok <==> session.user_id == resource_owner_id,
        r is Err ==> r == Err::<(), AuthError>(AuthError::OwnershipDenied),
{
    if session.user_id == resource_owner_id {
        Ok(())
    } else {
        Err(AuthError::OwnershipDenied)
    }
}

/// Interprets the row count the datastore reports for a conditional
/// mutation issued as one atomic predicate (record id and owner id
/// together). Zero rows means the record does not exist or belongs to
/// someone else; the two cases are deliberately indistinguishable
/// (`OwnershipDenied`), so mutation endpoints leak no record existence.
pub fn mutation_outcome(rows_affected: u64) -> (r: Result<(), AuthError>)
    ensures
        r is Ok <==> rows_affected > 0,
        r is Err ==> r == Err::<(), AuthError>(AuthError::OwnershipDenied),
{
    if rows_affected > 0 {
        Ok(())
    } else {
        Err(AuthError::OwnershipDenied)
    }
}

} // verus!
