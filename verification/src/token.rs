//! TokenIssuer: stateless, signed, time-limited session tokens.
//!
//! A token carries the identity claims of one user (subject id, email,
//! display name) and an absolute expiration timestamp, signed with a
//! process-wide secret. Validation checks the signature before anything
//! else, then treats the expiration as a hard boundary against the clock
//! value the caller supplies.

use vstd::prelude::*;

use crate::errors::AuthError;

verus! {

/// How long a session token stays valid: 24 hours, a fixed window with no
/// sliding renewal.
pub const SESSION_LIFETIME_SECS: u64 = 86400;

/// The compact signed token that minting produces for exactly these claims
/// under this secret. This names the result of jsonwebtoken::encode with an
/// HS256 header over the fixed claim set (sub, email, name, exp): that
/// result is a deterministic function of the five arguments.
pub uninterp spec fn token_of(
    sub: int,
    email: Seq<char>,
    name: Seq<char>,
    exp: int,
    secret: Seq<char>,
) -> Seq<char>;

/// The claims jsonwebtoken::decode recovers from a presented token under a
/// secret, projected to the fixed claim shape (sub as a machine integer,
/// email, name, exp) — or nothing, when decoding rejects the token: bad
/// structure, a signature that does not verify under the secret, an
/// algorithm other than HS256, or claims outside the fixed shape. With
/// expiration checking disabled the call reads no clock, so this is a
/// deterministic function of exactly the token and the secret. That a
/// tampered or forged token maps to nothing is the signature check's
/// cryptographic job; it is exercised by tests, not assumed here.
pub uninterp spec fn claims_of(token: Seq<char>, secret: Seq<char>) -> Option<
    (int, Seq<char>, Seq<char>, int),
>;

/// The identity claims carried by a session token: subject (user id),
/// denormalized email and display name, and the absolute expiration
/// timestamp (seconds since the Unix epoch). Never persisted server-side;
/// their lifetime is the token's signed lifetime.
#[derive(Clone, Debug, PartialEq, Eq)]
pub struct Claims {
    pub sub: i32,
    pub email: String,
    pub name: String,
    pub exp: u64,
}

/// The mathematical value of a set of claims.
pub ghost struct ClaimsView {
    pub sub: int,
    pub email: Seq<char>,
    pub name: Seq<char>,
    pub exp: int,
}

impl View for Claims {
    type V = ClaimsView;

    open spec fn view(&self) -> ClaimsView {
        ClaimsView {
            sub: self.sub as int,
            email: self.email@,
            name: self.name@,
            exp: self.exp as int,
        }
    }
}

/// The decode outcome read as claims: what a presented token means under a
/// secret, or nothing when decoding rejects it.
pub open spec fn decoded_claims(token: Seq<char>, secret: Seq<char>) -> Option<ClaimsView> {
    match claims_of(token, secret) {
        Some(c) => Some(ClaimsView { sub: c.0, email: c.1, name: c.2, exp: c.3 }),
        None => None,
    }
}

/// The claims a token minted for this identity at clock reading `now`
/// carries: the identity verbatim, expiring a fixed session lifetime later.
pub open spec fn minted_claims(
    user_id: i32,
    email: Seq<char>,
    name: Seq<char>,
    now: u64,
) -> ClaimsView {
    ClaimsView { sub: user_id as int, email: email, name: name, exp: now + SESSION_LIFETIME_SECS }
}

/// Relies on jsonwebtoken::encode with the default (HS256) header: the
/// result is an HMAC-SHA256-signed serialization of exactly the four claims
/// passed, deterministic in the claims and the secret. On this path the
/// call cannot fail — serializing a four-key JSON object is total, and the
/// HS256 arm of the signing dispatch returns unconditionally — so the
/// result is promised outright. The second clause is the round trip, which
/// decoding supports: an encoded token carries HS256, needs no claim
/// beyond the four present, and its subject string parses back to the
/// integer it came from.
#[verifier::external_body]
fn jwt_encode(sub: i32, email: &str, name: &str, exp: u64, secret: &str) -> (r: String)
    ensures
        r@ == token_of(sub as int, email@, name@, exp as int, secret@),
        claims_of(r@, secret@) == Some((sub as int, email@, name@, exp as int)),
{
    let mut claims = serde_json::Map::new();
    claims.insert("sub".to_string(), serde_json::Value::String(sub.to_string()));
    claims.insert("email".to_string(), serde_json::Value::String(email.to_string()));
    claims.insert("name".to_string(), serde_json::Value::String(name.to_string()));
    claims.insert("exp".to_string(), serde_json::Value::Number(serde_json::Number::from(exp)));
    jsonwebtoken::encode(
        &jsonwebtoken::Header::default(),
        &serde_json::Value::Object(claims),
        &jsonwebtoken::EncodingKey::from_secret(secret.as_bytes()),
    )
    .expect("signing a JSON object with HS256 cannot fail")
}

/// Relies on jsonwebtoken::decode restricted to HS256, with expiration
/// checking disabled so that the call is deterministic in the token and
/// the secret; the caller judges expiry itself. The signature is verified
/// before any claim is parsed or trusted. The result is exactly the named
/// decode outcome `claims_of`; every failure — malformed structure, a
/// signature that does not verify, a disallowed algorithm, claims outside
/// the fixed shape — is collapsed to `None`.
#[verifier::external_body]
fn jwt_decode(token: &str, secret: &str) -> (r: Option<(i32, String, String, u64)>)
    ensures
        match r {
            Some(c) => claims_of(token@, secret@) == Some((c.0 as int, c.1@, c.2@, c.3 as int)),
            None => claims_of(token@, secret@) is None,
        },
{
    let key = jsonwebtoken::DecodingKey::from_secret(secret.as_bytes());
    let mut validation = jsonwebtoken::Validation::new(jsonwebtoken::Algorithm::HS256);
    validation.validate_exp = false;
    validation.required_spec_claims = std::collections::HashSet::new();
    let data = jsonwebtoken::decode::<serde_json::Value>(token, &key, &validation).ok()?;
    let sub = data.claims.get("sub")?.as_str()?.parse::<i32>().ok()?;
    let email = data.claims.get("email")?.as_str()?.to_owned();
    let name = data.claims.get("name")?.as_str()?.to_owned();
    let exp = data.claims.get("exp")?.as_u64()?;
    Some((sub, email, name, exp))
}

/// Mints and validates session tokens with one process-wide signing secret,
/// injected once at construction and immutable afterwards. The secret never
/// appears in a token's claims and is not readable through this type's API.
pub struct TokenIssuer {
    secret: String,
}

impl TokenIssuer {
    /// The signing secret, visible only to specifications.
    pub closed spec fn secret(&self) -> Seq<char> {
        self.secret@
    }

    /// Takes the secret from configuration at startup.
    pub fn new(secret: String) -> (issuer: TokenIssuer)
        ensures
            issuer.secret() == secret@,
    {
        TokenIssuer { secret }
    }

    /// Mints a signed token for the given identity with
    /// `exp = now + SESSION_LIFETIME_SECS`.
    ///
    /// Minting always succeeds; the result is exactly the token signing
    /// those claims under this issuer's secret, and it decodes back to
    /// exactly those claims.
    pub fn issue(&self, user_id: i32, email: &str, name: &str, now: u64) -> (r: String)
        requires
            now + SESSION_LIFETIME_SECS <= u64::MAX,
        ensures
            r@ == token_of(
                user_id as int,
                email@,
                name@,
                now + SESSION_LIFETIME_SECS,
                self.secret(),
            ),
            decoded_claims(r@, self.secret()) == Some(minted_claims(user_id, email@, name@, now)),
    {
        let exp = now + SESSION_LIFETIME_SECS;
        jwt_encode(user_id, email, name, exp, self.secret.as_str())
    }

    /// Validates a presented token against this issuer's secret and the
    /// caller's clock reading `now`.
    ///
    /// The outcome is characterized exactly by the decode outcome: a token
    /// decoding rejects — malformed, signature mismatch, unsupported
    /// algorithm — fails with `TokenInvalid` before its content is
    /// trusted; a token that decodes fails with `TokenExpired` exactly
    /// when its expiration has been reached (`exp <= now`, a hard boundary
    /// with no leeway), and otherwise yields exactly the claims it
    /// carries.
    pub fn validate(&self, token: &str, now: u64) -> (r: Result<Claims, AuthError>)
        ensures
            r matches Ok(c) ==> decoded_claims(token@, self.secret()) == Some(c@),
            r is Ok <==> (decoded_claims(token@, self.secret()) matches Some(c) && c.exp > now),
            (r == Err::<Claims, AuthError>(AuthError::TokenInvalid)) <==> decoded_claims(
                token@,
                self.secret(),
            ) is None,
            (r == Err::<Claims, AuthError>(AuthError::TokenExpired)) <==> (decoded_claims(
                token@,
                self.secret(),
            ) matches Some(c) && c.exp <= now),
    {
        match jwt_decode(token, self.secret.as_str()) {
            None => Err(AuthError::TokenInvalid),
            Some((sub, email, name, exp)) => {
                if exp > now {
                    Ok(Claims { sub, email, name, exp })
                } else {
                    Err(AuthError::TokenExpired)
                }
            },
        }
    }
}

/// Law: a token validated immediately after issuance yields claims whose
/// subject is exactly the user it was issued for, along with the issued
/// email, name and expiration. Issuance cannot fail and a fresh token is
/// never rejected, so the claims come back outright.
pub fn issued_token_validates(
    issuer: &TokenIssuer,
    user_id: i32,
    email: &str,
    name: &str,
    now: u64,
) -> (r: Claims)
    requires
        now + SESSION_LIFETIME_SECS <= u64::MAX,
    ensures
        r.sub == user_id,
        r.email@ == email@,
        r.name@ == name@,
        r.exp == now + SESSION_LIFETIME_SECS,
{
    let token = issuer.issue(user_id, email, name, now);
    match issuer.validate(token.as_str(), now) {
        Ok(claims) => claims,
        Err(_) => {
            // Unreachable: the fresh token decodes to its minted claims,
            // which expire strictly after `now`.
            proof {
                assert(false);
            }
            Claims { sub: user_id, email: email.to_owned(), name: name.to_owned(), exp: now }
        },
    }
}

/// Law: a token validated at or past its expiration boundary fails with
/// `TokenExpired` — never with success, and never with any other failure.
/// The boundary is hard: `later` here is any clock reading from
/// `exp = now + SESSION_LIFETIME_SECS` onward.
pub fn issued_token_expires(
    issuer: &TokenIssuer,
    user_id: i32,
    email: &str,
    name: &str,
    now: u64,
    later: u64,
) -> (r: AuthError)
    requires
        now + SESSION_LIFETIME_SECS <= u64::MAX,
        now + SESSION_LIFETIME_SECS <= later,
    ensures
        r == AuthError::TokenExpired,
{
    let token = issuer.issue(user_id, email, name, now);
    match issuer.validate(token.as_str(), later) {
        Err(e) => e,
        Ok(_) => {
            // Unreachable: the token decodes to its minted claims, whose
            // expiration `later` has reached.
            proof {
                assert(false);
            }
            AuthError::TokenExpired
        },
    }
}

} // verus!
