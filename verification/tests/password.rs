use argon2::password_hash::{PasswordHasher, SaltString};
use credential_engine::password::{
    hash_password, hash_password_with, verify_password, HashError, PasswordCheck,
};

#[test]
fn hash_then_verify_matches() {
    let hash = hash_password("correct horse").unwrap();
    assert_eq!(verify_password("correct horse", &hash), PasswordCheck::Match);
}

#[test]
fn other_password_is_mismatch() {
    let hash = hash_password("correct horse").unwrap();
    assert_eq!(verify_password("battery staple", &hash), PasswordCheck::Mismatch);
}

#[test]
fn garbage_hash_is_malformed() {
    assert_eq!(verify_password("x", "not a hash"), PasswordCheck::Malformed);
    assert_eq!(verify_password("x", ""), PasswordCheck::Malformed);
}

#[test]
fn two_hashes_of_one_password_differ() {
    let a = hash_password("pw").unwrap();
    let b = hash_password("pw").unwrap();
    assert_ne!(a, b);
    assert!(a.starts_with("$argon2id$"));
}

#[test]
fn hash_under_a_given_salt_is_the_argon2id_hash() {
    let salt = SaltString::from_b64("c29tZXNhbHQ").unwrap();
    let expected = argon2::Argon2::default().hash_password(b"pw", &salt).unwrap().to_string();
    let hash = hash_password_with("pw", "c29tZXNhbHQ").unwrap();
    assert_eq!(hash, expected);
    assert!(hash.starts_with("$argon2id$v=19$m=19456,t=2,p=1$c29tZXNhbHQ$"));
    assert_eq!(verify_password("pw", &hash), PasswordCheck::Match);
    assert_eq!(verify_password("pW", &hash), PasswordCheck::Mismatch);
}

#[test]
fn hash_depends_on_password_and_salt_alone() {
    let first = hash_password_with("pw", "c29tZXNhbHQ").unwrap();
    assert_eq!(hash_password_with("pw", "c29tZXNhbHQ"), Ok(first.clone()));
    assert_ne!(hash_password_with("pw", "b3RoZXJzYWx0"), Ok(first.clone()));
    assert_ne!(hash_password_with("pw2", "c29tZXNhbHQ"), Ok(first));
}

#[test]
fn text_that_is_no_salt_is_a_failure() {
    assert_eq!(hash_password_with("pw", ""), Err(HashError));
    assert_eq!(hash_password_with("pw", "abc"), Err(HashError));
    assert_eq!(hash_password_with("pw", "not a salt!"), Err(HashError));
    let too_long = "a".repeat(65);
    assert_eq!(hash_password_with("pw", &too_long), Err(HashError));
}

#[test]
fn empty_password_is_hashed_like_any_other() {
    let hash = hash_password("").unwrap();
    assert_eq!(verify_password("", &hash), PasswordCheck::Match);
    assert_eq!(verify_password(" ", &hash), PasswordCheck::Mismatch);
}

#[test]
fn fresh_salt_is_carried_in_the_hash() {
    let hash = hash_password("pw").unwrap();
    let salt = hash.split('$').nth(4).unwrap().to_string();
    assert_eq!(salt.len(), 22);
    assert_eq!(hash_password_with("pw", &salt), Ok(hash));
}
