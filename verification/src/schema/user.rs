//! A user who signs up or logs in: the name and the password, once both
//! have been found well-formed.

use vstd::prelude::*;
use crate::clock;
use crate::db::{PasswordCheck, checked_password, hash_password, hashing_failed};
use crate::db::models::User;
use crate::errors::{Error, ErrorTypes, ErrorView};
use crate::ident;
use crate::ident::is_random_id;
use crate::pattern;
use crate::pattern::matches_whole;

verus! {

/// A user name: letters and digits only, five at least.
pub const USERNAME_PATTERN: &'static str = "^[a-zA-Z0-9]{5,}$";

/// A password: letters and digits only, eight at least, with a letter and a
/// digit among them.
pub const PASSWORD_PATTERN: &'static str = "^(?=.*[A-Za-z])(?=.*\\d)[A-Za-z\\d]{8,}$";

/// What is answered to a user name that is not well-formed.
pub const USERNAME_REFUSED: &'static str =
    "Ivalid username! Must containes minimum 5 symbols and only letters and numbers!";

/// What is answered to a password that is not well-formed.
pub const PASSWORD_REFUSED: &'static str =
    "Invalid password! Must contain at least 8 characters, one or more of which are numbers, the rest are letters!";

/// A well-formed user name.
#[derive(Debug, Clone, PartialEq, Eq)]
pub struct Username(pub String);

/// A well-formed password.
#[derive(Debug, Clone, PartialEq, Eq)]
pub struct Password(pub String);

/// A user name and a password, both well-formed.
#[derive(Debug, Clone, PartialEq, Eq)]
pub struct NewUser {
    pub username: Username,
    pub password: Password,
}

/// The failure of validation with the given answer.
pub open spec fn refused(message: Seq<char>) -> ErrorView {
    ErrorView::plain(message, ErrorTypes::ValidationError)
}

/// What [`Username::parse`] returns: the name itself, or the refusal.
pub open spec fn username_spec(username: Seq<char>) -> Result<Seq<char>, ErrorView> {
    if matches_whole(USERNAME_PATTERN@, username) {
        Ok(username)
    } else {
        Err(refused(USERNAME_REFUSED@))
    }
}

/// What [`Password::parse`] returns: the password itself, or the refusal.
pub open spec fn password_spec(password: Seq<char>) -> Result<Seq<char>, ErrorView> {
    if matches_whole(PASSWORD_PATTERN@, password) {
        Ok(password)
    } else {
        Err(refused(PASSWORD_REFUSED@))
    }
}

/// What [`NewUser::parse`] returns: both texts, or the first refusal.
pub open spec fn new_user_spec(username: Seq<char>, password: Seq<char>) -> Result<
    (Seq<char>, Seq<char>),
    ErrorView,
> {
    match username_spec(username) {
        Err(e) => Err(e),
        Ok(name) => match password_spec(password) {
            Err(e) => Err(e),
            Ok(word) => Ok((name, word)),
        },
    }
}

/// The mathematical content of a result that holds a user name.
pub open spec fn username_view(r: Result<Username, Error>) -> Result<Seq<char>, ErrorView> {
    match r {
        Ok(name) => Ok(name.0@),
        Err(e) => Err(e@),
    }
}

/// The mathematical content of a result that holds a password.
pub open spec fn password_view(r: Result<Password, Error>) -> Result<Seq<char>, ErrorView> {
    match r {
        Ok(word) => Ok(word.0@),
        Err(e) => Err(e@),
    }
}

/// The mathematical content of a result that holds a new user.
pub open spec fn new_user_view(r: Result<NewUser, Error>) -> Result<
    (Seq<char>, Seq<char>),
    ErrorView,
> {
    match r {
        Ok(user) => Ok((user.username.0@, user.password.0@)),
        Err(e) => Err(e@),
    }
}

impl Username {
    /// Accepts `username` where the pattern for user names matches the
    /// whole of it.
    pub fn parse(username: &str) -> (r: Result<Username, Error>)
        ensures
            username_view(r) == username_spec(username@),
    {
        if pattern::is_match(USERNAME_PATTERN, username) {
            Ok(Username(username.to_owned()))
        } else {
            Err(Error::plain(USERNAME_REFUSED, ErrorTypes::ValidationError))
        }
    }
}

impl Password {
    /// Accepts `password` where the pattern for passwords matches the whole
    /// of it.
    pub fn parse(password: &str) -> (r: Result<Password, Error>)
        ensures
            password_view(r) == password_spec(password@),
    {
        if pattern::is_match(PASSWORD_PATTERN, password) {
            Ok(Password(password.to_owned()))
        } else {
            Err(Error::plain(PASSWORD_REFUSED, ErrorTypes::ValidationError))
        }
    }
}

impl NewUser {
    /// Validates the name, then the password. The first that is refused
    /// decides the answer.
    pub fn parse(username: &str, password: &str) -> (r: Result<NewUser, Error>)
        ensures
            new_user_view(r) == new_user_spec(username@, password@),
    {
        let username = match Username::parse(username) {
            Ok(name) => name,
            Err(e) => {
                return Err(e);
            },
        };
        let password = match Password::parse(password) {
            Ok(word) => word,
            Err(e) => {
                return Err(e);
            },
        };
        Ok(NewUser { username, password })
    }

    /// The record of this user with the given identifier, password hash
    /// and instants.
    pub fn record(&self, id: u128, hashed_password: String, created_at: i128, updated_at: i128)
        -> (user: User)
        ensures
            user.id == id,
            user.username@ == self.username.0@,
            user.password == hashed_password,
            user.created_at == created_at,
            user.updated_at == updated_at,
    {
        User {
            id,
            username: self.username.0.clone(),
            password: hashed_password,
            created_at,
            updated_at,
        }
    }

    /// The record of this user for the database: a fresh random identifier,
    /// a hash of the password that accepts the password, and the current
    /// instant twice. It fails only where hashing fails.
    pub fn build(&self) -> (r: Result<User, Error>)
        ensures
            match r {
                Ok(user) => {
                    &&& user.username@ == self.username.0@
                    &&& is_random_id(user.id)
                    &&& checked_password(user.password@, self.password.0@)
                        == PasswordCheck::Accepted
                },
                Err(e) => e@ == hashing_failed(),
            },
    {
        let hashed_password = match hash_password(self.password.0.as_str()) {
            Ok(hash) => hash,
            Err(e) => {
                return Err(e);
            },
        };
        let id = ident::random_id();
        let created_at = clock::unix_nanos();
        let updated_at = clock::unix_nanos();
        Ok(self.record(id, hashed_password, created_at, updated_at))
    }
}

} // verus!
