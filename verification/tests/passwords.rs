use backend::utils::hash::hashing_result;
use backend::utils::{hash_password, verify_hash_password};

#[test]
fn hashed_password_verifies() {
    let hashed = hash_password("correct horse").unwrap();
    assert_ne!(hashed, "correct horse");
    assert!(hashed.starts_with("$2b$12$"));
    assert_eq!(verify_hash_password("correct horse", &hashed), Ok(true));
}

#[test]
fn other_password_does_not_verify() {
    let hashed = hash_password("correct horse").unwrap();
    assert_eq!(verify_hash_password("battery staple", &hashed), Ok(false));
    assert_eq!(verify_hash_password("", &hashed), Ok(false));
}

#[test]
fn two_hashes_of_one_password_differ() {
    let a = hash_password("correct horse").unwrap();
    let b = hash_password("correct horse").unwrap();
    assert_ne!(a, b);
}

#[test]
fn known_hash_verifies() {
    let known = "$2b$04$uA/4qOPQ3.iJ8jjMU5y3e.safXqadgICy0voGWm44gDjBqX1O3wIS";
    assert_eq!(verify_hash_password("password1", known), Ok(true));
    assert_eq!(verify_hash_password("password2", known), Ok(false));
}

#[test]
fn text_that_is_no_hash_fails() {
    assert_eq!(
        verify_hash_password("password1", "nonsense"),
        Err("Failed to verify hash_password")
    );
    assert_eq!(verify_hash_password("password1", ""), Err("Failed to verify hash_password"));
    assert_eq!(
        verify_hash_password("password1", "password1"),
        Err("Failed to verify hash_password")
    );
}

#[test]
fn hashing_outcomes() {
    assert_eq!(hashing_result(Some("h".to_string())), Ok("h".to_string()));
    assert_eq!(hashing_result(None), Err("Failed to hash password"));
}

#[test]
fn work_factor_is_the_default_of_the_hashing() {
    assert_eq!(backend::utils::hash::HASH_COST, bcrypt::DEFAULT_COST);
    assert_eq!(backend::utils::hash::HASH_COST, 12);
}
