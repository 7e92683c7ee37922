//! What stands between the routes and the database: the stored records,
//! password hashing, and the rules that the queries follow.

pub mod functionality;
pub mod models;

use vstd::prelude::*;
use crate::errors::{Auth, Error, ErrorTypes, ErrorView};

verus! {

/// What checking a password against a stored hash gives.
#[derive(Debug, Clone, Copy, PartialEq, Eq, Structural)]
pub enum PasswordCheck {
    /// The password is the one that was hashed.
    Accepted,
    /// The stored text is no password hash.
    Unreadable,
    /// The password is another one, or the hash cannot be computed again.
    Rejected,
}

/// What `argon2` makes of a stored hash and a password: the result of
/// `PasswordHash::new` on the hash and, where that reads, of
/// `Argon2::default().verify_password` on the password.
pub uninterp spec fn checked_password(hashed_password: Seq<char>, password: Seq<char>)
    -> PasswordCheck;

/// Calls `SaltString::generate` with the operating system's random source,
/// then `Argon2::default().hash_password`, and writes the hash as text.
///
/// Trusted: whatever the salt, a hash that was made is accepted when the
/// same password is checked against it. (The hash text carries the salt and
/// the parameters, and checking computes the hash again from them.)
#[verifier::external_body]
fn hash_with_fresh_salt(password: &str) -> (r: Option<String>)
    ensures
        r matches Some(hash) ==> checked_password(hash@, password@) == PasswordCheck::Accepted,
{
    let salt = argon2::password_hash::SaltString::generate(
        &mut argon2::password_hash::rand_core::OsRng,
    );
    let hasher = argon2::Argon2::default();
    argon2::PasswordHasher::hash_password(&hasher, password.as_bytes(), &salt)
        .ok()
        .map(|hash| hash.to_string())
}

/// Calls `PasswordHash::new` on the stored text and, where that reads,
/// `Argon2::default().verify_password`.
///
/// Trusted: the result is a function of the two strings alone.
#[verifier::external_body]
fn check_password(hashed_password: &str, password: &str) -> (r: PasswordCheck)
    ensures
        r == checked_password(hashed_password@, password@),
{
    let hasher = argon2::Argon2::default();
    match argon2::PasswordHash::new(hashed_password) {
        Err(_) => PasswordCheck::Unreadable,
        Ok(hash) => match argon2::PasswordVerifier::verify_password(
            &hasher,
            password.as_bytes(),
            &hash,
        ) {
            Ok(()) => PasswordCheck::Accepted,
            Err(_) => PasswordCheck::Rejected,
        },
    }
}

/// The failure of password hashing.
pub open spec fn hashing_failed() -> ErrorView {
    ErrorView::plain("Password hashing error"@, ErrorTypes::DbError)
}

/// What [`verify_password_hash`] returns for each result of the check.
pub open spec fn verification(check: PasswordCheck) -> Result<(), ErrorView> {
    match check {
        PasswordCheck::Accepted => Ok(()),
        PasswordCheck::Unreadable => Err(hashing_failed()),
        PasswordCheck::Rejected => Err(
            ErrorView::plain(
                "Incorrect password. Try again!"@,
                ErrorTypes::Auth(Auth::Authentication),
            ),
        ),
    }
}

/// The mathematical content of a result that holds nothing or a failure.
pub open spec fn unit_view(r: Result<(), Error>) -> Result<(), ErrorView> {
    match r {
        Ok(()) => Ok(()),
        Err(e) => Err(e@),
    }
}

/// What hashing gave, as a hash or a database failure.
pub fn hashed(outcome: Option<String>) -> (r: Result<String, Error>)
    ensures
        match outcome {
            Some(hash) => r == Ok::<String, Error>(hash),
            None => r matches Err(e) && e@ == hashing_failed(),
        },
{
    match outcome {
        Some(hash) => Ok(hash),
        None => Err(Error::plain("Password hashing error", ErrorTypes::DbError)),
    }
}

/// Hashes `password` with a fresh random salt, so that two calls on one
/// password give different hashes. Each of them is accepted when the
/// password is checked against it. Where hashing fails, the failure is a
/// database failure.
pub fn hash_password(password: &str) -> (r: Result<String, Error>)
    ensures
        match r {
            Ok(hash) => checked_password(hash@, password@) == PasswordCheck::Accepted,
            Err(e) => e@ == hashing_failed(),
        },
{
    hashed(hash_with_fresh_salt(password))
}

/// What a check of a password amounts to: nothing to report, a database
/// failure for a stored text that is no hash, a rejection for a wrong
/// password.
pub fn verified(check: PasswordCheck) -> (r: Result<(), Error>)
    ensures
        unit_view(r) == verification(check),
{
    match check {
        PasswordCheck::Accepted => Ok(()),
        PasswordCheck::Unreadable => Err(
            Error::plain("Password hashing error", ErrorTypes::DbError),
        ),
        PasswordCheck::Rejected => Err(
            Error::plain("Incorrect password. Try again!", ErrorTypes::Auth(Auth::Authentication)),
        ),
    }
}

/// Checks `password` against the stored hash `hashed_password`.
pub fn verify_password_hash(hashed_password: &str, password: &str) -> (r: Result<(), Error>)
    ensures
        unit_view(r) == verification(checked_password(hashed_password@, password@)),
{
    verified(check_password(hashed_password, password))
}

} // verus!
