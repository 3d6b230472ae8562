//! Password hashing with Argon2id.
//!
//! A hash is a self-describing string: algorithm, parameters, salt and digest
//! together. Nothing outside this module looks inside one.

use argon2::password_hash::rand_core::OsRng;
use argon2::password_hash::{PasswordHash, PasswordHasher, PasswordVerifier, SaltString};
use argon2::Argon2;
use vstd::prelude::*;

verus! {

/// Outcome of checking a password against a stored hash.
#[derive(Clone, Copy, Debug, PartialEq, Eq, Structural)]
pub enum PasswordCheck {
    /// The password is the one the hash was made from.
    Match,
    /// The hash is well formed and the password is a different one.
    Mismatch,
    /// The hash string cannot be parsed or evaluated: the stored data is corrupt.
    Malformed,
}

/// Hashing failed inside the hashing algorithm.
#[derive(Clone, Copy, Debug, PartialEq, Eq, Structural)]
pub struct HashError;

/// What Argon2 answers when `password` is checked against the hash string `hash`.
pub uninterp spec fn argon2_verdict(password: Seq<char>, hash: Seq<char>) -> PasswordCheck;

/// The hash string that Argon2id, with its default parameters, makes of
/// `password` under the salt whose text is `salt`; nothing if the text is no
/// valid salt or the algorithm fails.
pub uninterp spec fn argon2_text(password: Seq<char>, salt: Seq<char>) -> Option<Seq<char>>;

/// Calls `SaltString::generate` with the operating system's random generator
/// and takes the salt's text. The salt is random, so nothing is claimed about it.
#[verifier::external_body]
fn fresh_salt() -> (salt: String) {
    SaltString::generate(&mut OsRng).as_str().to_owned()
}

/// Reads `salt` with `SaltString::from_b64`, calls `PasswordHasher::hash_password`
/// of `Argon2::default()` and renders the result as a string. Claimed: the
/// outcome depends on the password and the salt's text alone, and a string that
/// comes out is accepted by [`argon2_check`] for the same password, because
/// checking recomputes the digest from the parameters and the salt that the
/// string carries.
#[verifier::external_body]
fn argon2_hash(password: &str, salt: &str) -> (hash: Option<String>)
    ensures
        match hash {
            Some(h) => argon2_text(password@, salt@) == Some(h@),
            None => argon2_text(password@, salt@).is_none(),
        },
        hash matches Some(h) ==> argon2_verdict(password@, h@) == PasswordCheck::Match,
{
    let salt = match SaltString::from_b64(salt) {
        Ok(s) => s,
        Err(_) => return None,
    };
    match Argon2::default().hash_password(password.as_bytes(), &salt) {
        Ok(h) => Some(h.to_string()),
        Err(_) => None,
    }
}

/// Value of the outcome of a hashing.
pub open spec fn hash_result(result: Result<String, HashError>) -> Result<Seq<char>, HashError> {
    match result {
        Ok(hash) => Ok(hash@),
        Err(e) => Err(e),
    }
}

/// Hashes `password` under a fresh random salt.
///
/// The result is what hashing the password under the salt that was drawn
/// gives, see [`hash_password_with`]: its hash under that salt, or the failure
/// of the algorithm. Whatever salt was drawn, a hash that is returned matches
/// the password.
pub fn hash_password(password: &str) -> (result: Result<String, HashError>)
    ensures
        exists|salt: Seq<char>| hash_result(result) == #[trigger] hash_outcome(password@, salt),
        result matches Ok(h) ==> argon2_verdict(password@, h@) == PasswordCheck::Match,
{
    let salt = fresh_salt();
    hash_password_with(password, salt.as_str())
}

/// What hashing `password` under the salt `salt` gives: the hash string, or
/// the failure of the algorithm.
pub open spec fn hash_outcome(password: Seq<char>, salt: Seq<char>) -> Result<
    Seq<char>,
    HashError,
> {
    match argon2_text(password, salt) {
        Some(hash) => Ok(hash),
        None => Err(HashError),
    }
}

/// Hashes `password` under the salt whose text is `salt`.
///
/// The hash is the one that Argon2id makes of the two, and it matches the
/// password. A text that is no valid salt is a failure.
pub fn hash_password_with(password: &str, salt: &str) -> (result: Result<String, HashError>)
    ensures
        hash_result(result) == hash_outcome(password@, salt@),
        result matches Ok(h) ==> argon2_verdict(password@, h@) == PasswordCheck::Match,
{
    match argon2_hash(password, salt) {
        Some(h) => Ok(h),
        None => Err(HashError),
    }
}

/// Parses `hash` with `PasswordHash::new` and calls `PasswordVerifier::verify_password`
/// of `Argon2::default()`. Claimed: the answer depends on the two strings alone.
/// A parse error and every error other than a wrong password are reported as
/// `Malformed`.
#[verifier::external_body]
fn argon2_check(password: &str, hash: &str) -> (check: PasswordCheck)
    ensures
        check == argon2_verdict(password@, hash@),
{
    let parsed = match PasswordHash::new(hash) {
        Ok(p) => p,
        Err(_) => return PasswordCheck::Malformed,
    };
    match Argon2::default().verify_password(password.as_bytes(), &parsed) {
        Ok(()) => PasswordCheck::Match,
        Err(argon2::password_hash::Error::Password) => PasswordCheck::Mismatch,
        Err(_) => PasswordCheck::Malformed,
    }
}

/// Checks `password` against the hash string `hash`.
pub fn verify_password(password: &str, hash: &str) -> (check: PasswordCheck)
    ensures
        check == argon2_verdict(password@, hash@),
{
    argon2_check(password, hash)
}

} // verus!
