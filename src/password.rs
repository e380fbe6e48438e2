//! One-way password hashing with Argon2 and a fresh random salt per hash.
use argon2::password_hash::{PasswordHasher, PasswordVerifier};
use vstd::prelude::*;

verus! {

#[verifier::external_type_specification]
#[verifier::external_body]
pub struct ExPasswordHashError(argon2::password_hash::Error);

/// What Argon2 decides for a stored hash text and a candidate password:
/// `Some(true)` on a match, `Some(false)` on a mismatch, `None` when the
/// stored text is not a usable hash.
pub uninterp spec fn argon2_verdict(hash: Seq<char>, candidate: Seq<char>) -> Option<bool>;

/// Relies on `argon2::password_hash::SaltString::generate` and
/// `Argon2::hash_password`: a PHC string with a fresh random salt, which the
/// same algorithm then accepts for the same password.
#[verifier::external_body]
fn argon2_hash(password: &str) -> (r: Result<String, argon2::password_hash::Error>)
    ensures
        r is Ok ==> argon2_verdict(r->Ok_0@, password@) == Some(true),
{
    let salt = argon2::password_hash::SaltString::generate(&mut argon2::password_hash::rand_core::OsRng);
    argon2::Argon2::default().hash_password(password.as_bytes(), &salt).map(|h| h.to_string())
}

/// Relies on `argon2::password_hash::PasswordHash::new` and
/// `Argon2::verify_password`; a mismatch is the error `Error::Password`.
#[verifier::external_body]
fn argon2_check(hash: &str, candidate: &str) -> (r: Result<bool, argon2::password_hash::Error>)
    ensures
        match r {
            Ok(b) => argon2_verdict(hash@, candidate@) == Some(b),
            Err(_) => argon2_verdict(hash@, candidate@) is None,
        },
{
    let parsed = argon2::password_hash::PasswordHash::new(hash)?;
    match argon2::Argon2::default().verify_password(candidate.as_bytes(), &parsed) {
        Ok(()) => Ok(true),
        Err(argon2::password_hash::Error::Password) => Ok(false),
        Err(other) => Err(other),
    }
}

/// Relies on the `Display` of `argon2::password_hash::Error`.
#[verifier::external_body]
fn describe_hash_error(e: &argon2::password_hash::Error) -> (r: String) {
    e.to_string()
}

#[derive(Debug, Clone, PartialEq, Eq)]
pub enum PasswordError {
    /// The hashing machinery failed, or a stored hash is not usable.
    Hash(String),
    /// The password does not match the stored hash.
    InvalidPassword,
}

/// Hashes `password` with a fresh salt; a hash that is returned verifies
/// against the same password.
pub fn hash_password(password: &str) -> (r: Result<String, PasswordError>)
    ensures
        r is Ok ==> argon2_verdict(r->Ok_0@, password@) == Some(true),
        r is Err ==> r->Err_0 is Hash,
{
    match argon2_hash(password) {
        Ok(h) => Ok(h),
        Err(e) => Err(PasswordError::Hash(describe_hash_error(&e))),
    }
}

/// Checks `candidate` against a stored hash. A mismatch and an unusable hash
/// are told apart.
pub fn verify_password(expected_hash: &str, candidate: &str) -> (r: Result<(), PasswordError>)
    ensures
        match argon2_verdict(expected_hash@, candidate@) {
            Some(true) => r is Ok,
            Some(false) => r == Err::<(), PasswordError>(PasswordError::InvalidPassword),
            None => r is Err && r->Err_0 is Hash,
        },
{
    match argon2_check(expected_hash, candidate) {
        Ok(true) => Ok(()),
        Ok(false) => Err(PasswordError::InvalidPassword),
        Err(e) => Err(PasswordError::Hash(describe_hash_error(&e))),
    }
}

} // verus!
