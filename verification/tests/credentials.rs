use auth_window::errors::InternalFailure;
use auth_window::security::{hash_password, hash_password_with_salt, verify_password};

#[test]
fn hashed_password_verifies() {
    let record = hash_password("secretpw").unwrap();
    assert!(verify_password("secretpw", &record));
}

#[test]
fn other_password_does_not_verify() {
    let record = hash_password("secretpw").unwrap();
    assert!(!verify_password("secretpW", &record));
    assert!(!verify_password("", &record));
}

#[test]
fn two_hashes_of_one_password_differ_and_both_verify() {
    let first = hash_password("secretpw").unwrap();
    let second = hash_password("secretpw").unwrap();
    assert_ne!(first, second);
    assert!(verify_password("secretpw", &first));
    assert!(verify_password("secretpw", &second));
}

#[test]
fn record_is_a_phc_string_with_the_default_parameters() {
    let record = hash_password("secretpw").unwrap();
    assert!(record.starts_with("$argon2id$v=19$m=19456,t=2,p=1$"));
    assert_ne!(record, "secretpw");
}

#[test]
fn malformed_record_verifies_nothing() {
    assert!(!verify_password("secretpw", ""));
    assert!(!verify_password("secretpw", "secretpw"));
    assert!(!verify_password("secretpw", "not-a-hash"));
    assert!(!verify_password("secretpw", "$argon2id$v=19$m=19456,t=2,p=1$$$$"));
}

#[test]
fn record_without_output_verifies_nothing() {
    assert!(!verify_password("secretpw", "$argon2id$v=19$m=19456,t=2,p=1$c29tZXNhbHRzb21lc2FsdA"));
}

#[test]
fn empty_password_can_be_hashed_and_verified() {
    let record = hash_password("").unwrap();
    assert!(verify_password("", &record));
    assert!(!verify_password(" ", &record));
}

#[test]
fn hashing_under_a_given_salt_is_reproducible() {
    let first = hash_password_with_salt("secretpw", "c29tZXNhbHRzb21lc2FsdA").unwrap();
    let second = hash_password_with_salt("secretpw", "c29tZXNhbHRzb21lc2FsdA").unwrap();
    assert_eq!(first, second);
    assert!(first.starts_with("$argon2id$v=19$m=19456,t=2,p=1$c29tZXNhbHRzb21lc2FsdA$"));
    assert!(verify_password("secretpw", &first));
}

#[test]
fn another_salt_gives_another_record() {
    let first = hash_password_with_salt("secretpw", "c29tZXNhbHRzb21lc2FsdA").unwrap();
    let second = hash_password_with_salt("secretpw", "b3RoZXJzYWx0b3RoZXJzYQ").unwrap();
    assert_ne!(first, second);
    assert!(verify_password("secretpw", &second));
}

#[test]
fn unusable_salt_is_an_internal_failure() {
    assert_eq!(hash_password_with_salt("secretpw", "abc"), Err(InternalFailure));
    assert_eq!(hash_password_with_salt("secretpw", "not valid!"), Err(InternalFailure));
}
