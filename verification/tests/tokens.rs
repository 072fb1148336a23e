use authcore::AuthError;
use authcore::SESSION_LIFETIME_SECS;
use authcore::TokenIssuer;
use authcore::issued_token_expires;
use authcore::issued_token_validates;

const NOW: u64 = 1_700_000_000;

fn issuer() -> TokenIssuer {
    TokenIssuer::new(String::from("test-signing-secret"))
}

#[test]
fn issue_then_validate_returns_subject() {
    let issuer = issuer();
    let token = issuer.issue(42, "ann@x.com", "Ann", NOW);
    let claims = issuer.validate(&token, NOW).expect("a fresh token validates");
    assert_eq!(claims.sub, 42);
    assert_eq!(claims.email, "ann@x.com");
    assert_eq!(claims.name, "Ann");
    assert_eq!(claims.exp, NOW + SESSION_LIFETIME_SECS);
}

#[test]
fn issued_token_validates_law_holds() {
    let issuer = issuer();
    let claims = issued_token_validates(&issuer, 7, "b@x.com", "Bob", NOW);
    assert_eq!(claims.sub, 7);
    assert_eq!(claims.exp, NOW + SESSION_LIFETIME_SECS);
}

#[test]
fn issued_token_expires_law_holds() {
    let issuer = issuer();
    let e = issued_token_expires(&issuer, 7, "b@x.com", "Bob", NOW, NOW + SESSION_LIFETIME_SECS);
    assert_eq!(e, AuthError::TokenExpired);
}

#[test]
fn token_expires_at_the_boundary() {
    let issuer = issuer();
    let token = issuer.issue(42, "ann@x.com", "Ann", NOW);
    let exp = NOW + SESSION_LIFETIME_SECS;
    assert_eq!(issuer.validate(&token, exp), Err(AuthError::TokenExpired));
    assert_eq!(issuer.validate(&token, exp + 1), Err(AuthError::TokenExpired));
    assert!(issuer.validate(&token, exp - 1).is_ok());
}

#[test]
fn tampered_signature_is_invalid() {
    let issuer = issuer();
    let token = issuer.issue(42, "ann@x.com", "Ann", NOW);
    let mut tampered = token.clone();
    let last = tampered.pop().expect("a token is never empty");
    tampered.push(if last == 'A' { 'B' } else { 'A' });
    assert_eq!(issuer.validate(&tampered, NOW), Err(AuthError::TokenInvalid));
}

#[test]
fn tampered_claims_are_invalid() {
    let issuer = issuer();
    let token = issuer.issue(42, "ann@x.com", "Ann", NOW);
    let parts: Vec<&str> = token.split('.').collect();
    assert_eq!(parts.len(), 3);
    let other = issuer.issue(43, "eve@x.com", "Eve", NOW);
    let other_parts: Vec<&str> = other.split('.').collect();
    let forged = format!("{}.{}.{}", parts[0], other_parts[1], parts[2]);
    assert_eq!(issuer.validate(&forged, NOW), Err(AuthError::TokenInvalid));
}

#[test]
fn token_signed_with_another_secret_is_invalid() {
    let issuer = issuer();
    let other = TokenIssuer::new(String::from("another-signing-secret"));
    let token = other.issue(42, "ann@x.com", "Ann", NOW);
    assert_eq!(issuer.validate(&token, NOW), Err(AuthError::TokenInvalid));
}

#[test]
fn garbage_token_is_invalid() {
    let issuer = issuer();
    assert_eq!(issuer.validate("", NOW), Err(AuthError::TokenInvalid));
    assert_eq!(issuer.validate("not-a-token", NOW), Err(AuthError::TokenInvalid));
    assert_eq!(issuer.validate("a.b.c", NOW), Err(AuthError::TokenInvalid));
}
