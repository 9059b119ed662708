use vstd::prelude::*;

use crate::routes::user::error::UserError;

verus! {

/// What checking a candidate password against a stored hash gives: whether
/// it is the password that was hashed, or nothing where the hash cannot be
/// read or the check cannot be made.
pub uninterp spec fn argon2_verdict(candidate: Seq<char>, hash: Seq<char>) -> Option<bool>;

/// Hashes a password with Argon2 under a fresh random salt.
///
/// Calls `argon2::password_hash::SaltString::generate` on the system's
/// random number generator, then `hash_password` of `argon2::Argon2` with its
/// default parameters, and renders the hash. `None` says that hashing failed.
/// The salt is random, so the text differs from call to call; what holds of
/// every hash is that checking the same password against it succeeds, as the
/// crate documents for `hash_password` and `verify_password`.
#[verifier::external_body]
fn argon2_hash(password: &str) -> (hashed: Option<String>)
    ensures
        hashed matches Some(hash) ==> argon2_verdict(password@, hash@) == Some(true),
{
    let salt = argon2::password_hash::SaltString::generate(
        &mut argon2::password_hash::rand_core::OsRng,
    );
    let hashed = argon2::PasswordHasher::hash_password(
        &argon2::Argon2::default(),
        password.as_bytes(),
        &salt,
    );
    match hashed {
        Ok(hash) => Some(hash.to_string()),
        Err(_) => None,
    }
}

/// Checks a candidate password against a stored hash.
///
/// Calls `argon2::PasswordHash::new` on the hash and `verify_password` of
/// `argon2::Argon2` on the candidate. The answer is `Some(true)` where they
/// agree, `Some(false)` where `verify_password` fails with `Error::Password`,
/// and `None` on every other failure. It depends on the two texts alone.
#[verifier::external_body]
fn argon2_verify(candidate: &str, hash: &str) -> (verdict: Option<bool>)
    ensures
        verdict == argon2_verdict(candidate@, hash@),
{
    let parsed = match argon2::PasswordHash::new(hash) {
        Ok(parsed) => parsed,
        Err(_) => return None,
    };
    let verifier = argon2::Argon2::default();
    match argon2::PasswordVerifier::verify_password(&verifier, candidate.as_bytes(), &parsed) {
        Ok(()) => Some(true),
        Err(argon2::password_hash::Error::Password) => Some(false),
        Err(_) => None,
    }
}

/// What a hashing attempt means to the caller.
pub fn hash_outcome(hashed: Option<String>) -> (outcome: Result<String, UserError>)
    ensures
        outcome == (match hashed {
            Some(hash) => Ok::<String, UserError>(hash),
            None => Err(UserError::InternalServerError),
        }),
{
    match hashed {
        Some(hash) => Ok(hash),
        None => Err(UserError::InternalServerError),
    }
}

/// What a password check means to the caller.
pub fn check_outcome(verdict: Option<bool>) -> (outcome: Result<bool, UserError>)
    ensures
        outcome == (match verdict {
            Some(correct) => Ok::<bool, UserError>(correct),
            None => Err(UserError::InternalServerError),
        }),
{
    match verdict {
        Some(correct) => Ok(correct),
        None => Err(UserError::InternalServerError),
    }
}

/// Generates a password hash using Argon2: a text against which the
/// password, checked with [`is_correct_password`], is found correct. Fails
/// with `InternalServerError` where hashing fails.
pub fn generate_password_hash(password: String) -> (hashed: Result<String, UserError>)
    ensures
        match hashed {
            Ok(hash) => argon2_verdict(password@, hash@) == Some(true),
            Err(error) => error == UserError::InternalServerError,
        },
{
    hash_outcome(argon2_hash(password.as_str()))
}

/// Verifies if the candidate password is correct for the stored hash. Fails
/// with `InternalServerError` where the hash cannot be read.
pub fn is_correct_password(candidate: &String, password: &String) -> (correct: Result<
    bool,
    UserError,
>)
    ensures
        correct == (match argon2_verdict(candidate@, password@) {
            Some(correct) => Ok::<bool, UserError>(correct),
            None => Err(UserError::InternalServerError),
        }),
{
    check_outcome(argon2_verify(candidate.as_str(), password.as_str()))
}

} // verus!
