use authcore::credential_round_trip;
use authcore::hash;
use authcore::verify;

#[test]
fn hash_then_verify_accepts() {
    let stored = hash("secret1").expect("hashing a short password succeeds");
    assert!(verify("secret1", &stored));
}

#[test]
fn verify_rejects_wrong_password() {
    let stored = hash("secret1").expect("hashing a short password succeeds");
    assert!(!verify("wrong", &stored));
    assert!(!verify("secret2", &stored));
    assert!(!verify("", &stored));
}

#[test]
fn credential_round_trip_law_holds() {
    assert_eq!(credential_round_trip("pa55word"), Some(true));
}

#[test]
fn distinct_hashes_same_password_both_verify() {
    let first = hash("secret1").expect("hashing succeeds");
    let second = hash("secret1").expect("hashing succeeds");
    assert_ne!(first, second, "salts must differ between two hashes");
    assert!(verify("secret1", &first));
    assert!(verify("secret1", &second));
}

#[test]
fn hash_output_is_not_the_plaintext() {
    let stored = hash("secret1").expect("hashing succeeds");
    assert_ne!(stored, "secret1");
    assert!(stored.starts_with("$2"), "stored form is a bcrypt hash string");
}

#[test]
fn verify_malformed_hash_is_false() {
    assert!(!verify("secret1", "not a bcrypt hash"));
    assert!(!verify("secret1", ""));
    assert!(!verify("secret1", "$2b$12$short"));
}
