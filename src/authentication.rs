use vstd::prelude::*;

use crate::errors::AuthError;

verus! {

/// What argon2 says of a candidate password against a stored hash in PHC form:
/// `None` when the hash cannot be read, else whether the password matches.
pub uninterp spec fn argon2_verdict(hash: Seq<char>, candidate: Seq<char>) -> Option<bool>;

/// Relies on `argon2::PasswordHash::new` to read the PHC string and on
/// `PasswordVerifier::verify_password` of `Argon2::default()` to check the candidate
/// against it; the verdict depends on the two texts alone.
#[verifier::external_body]
fn argon2_check(hash: &str, candidate: &str) -> (r: Option<bool>)
    ensures
        r == argon2_verdict(hash@, candidate@),
{
    match argon2::PasswordHash::new(hash) {
        Ok(parsed) => Some(
            argon2::PasswordVerifier::verify_password(&argon2::Argon2::default(), candidate.as_bytes(), &parsed).is_ok(),
        ),
        Err(_) => None,
    }
}

/// The stand-in hash checked when the user is unknown, so that an unknown name costs
/// as much time as a wrong password.
pub open spec fn placeholder_hash() -> Seq<char> {
    "$argon2id$v=19$m=15000,t=2,p=1$gZiV/M1gPc22ElAH/Jh1Hw$CWOrkoo7oJBQ/iyh7uJ0LO2aLEfrHwTWllSAxT0zRno"@
}

/// The result of a password check from argon2's verdict.
pub open spec fn password_outcome_spec(verdict: Option<bool>) -> Result<(), AuthError> {
    match verdict {
        None => Err(AuthError::UnexpectedError),
        Some(false) => Err(AuthError::InvalidCredentials),
        Some(true) => Ok(()),
    }
}

/// The result of a login from the user found (if any) and argon2's verdict.
pub open spec fn credentials_outcome_spec(user: Option<u128>, verdict: Option<bool>) -> Result<u128, AuthError> {
    match password_outcome_spec(verdict) {
        Err(e) => Err(e),
        Ok(()) => match user {
            None => Err(AuthError::InvalidCredentials),
            Some(id) => Ok(id),
        },
    }
}

/// Turns argon2's verdict into the check's result: an unreadable hash is unexpected,
/// a mismatch is invalid credentials.
pub fn password_outcome(verdict: Option<bool>) -> (r: Result<(), AuthError>)
    ensures
        r == password_outcome_spec(verdict),
{
    match verdict {
        None => Err(AuthError::UnexpectedError),
        Some(false) => Err(AuthError::InvalidCredentials),
        Some(true) => Ok(()),
    }
}

/// Checks a candidate password against a stored hash.
pub fn verify_password_hash(expected_hash: &str, candidate: &str) -> (r: Result<(), AuthError>)
    ensures
        r == password_outcome_spec(argon2_verdict(expected_hash@, candidate@)),
{
    password_outcome(argon2_check(expected_hash, candidate))
}

/// Decides a login from the user found under the name (if any) and argon2's verdict on
/// the password: the password is judged first, and an unknown user never gets in, even
/// if the stand-in hash were to match.
pub fn credentials_outcome(user: Option<u128>, verdict: Option<bool>) -> (r: Result<u128, AuthError>)
    ensures
        r == credentials_outcome_spec(user, verdict),
{
    match password_outcome(verdict) {
        Err(e) => Err(e),
        Ok(()) => match user {
            None => Err(AuthError::InvalidCredentials),
            Some(id) => Ok(id),
        },
    }
}

/// The user id of stored credentials.
pub open spec fn stored_user(stored: Option<(u128, String)>) -> Option<u128> {
    match stored {
        Some((id, _)) => Some(id),
        None => None,
    }
}

/// The hash that a login is checked against: the stored one, or the stand-in.
pub open spec fn hash_to_check(stored: Option<(u128, String)>) -> Seq<char> {
    match stored {
        Some((_, h)) => h@,
        None => placeholder_hash(),
    }
}

/// Checks a login against the credentials stored under the name, if any: the stored
/// hash, or the stand-in hash for an unknown name, is always checked.
pub fn validate_credentials(stored: Option<(u128, String)>, candidate: &str) -> (r: Result<u128, AuthError>)
    ensures
        r == credentials_outcome_spec(stored_user(stored), argon2_verdict(hash_to_check(stored), candidate@)),
{
    match stored {
        Some((id, hash)) => credentials_outcome(Some(id), argon2_check(hash.as_str(), candidate)),
        None => credentials_outcome(
            None,
            argon2_check(
                "$argon2id$v=19$m=15000,t=2,p=1$gZiV/M1gPc22ElAH/Jh1Hw$CWOrkoo7oJBQ/iyh7uJ0LO2aLEfrHwTWllSAxT0zRno",
                candidate,
            ),
        ),
    }
}

} // verus!
