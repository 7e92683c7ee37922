//! The records of the database.

use vstd::prelude::*;

verus! {

/// A user as the database holds it.
#[derive(Debug, Clone, PartialEq, Eq)]
pub struct User {
    pub id: u128,
    pub username: String,
    /// The hash of the password, never the password.
    pub password: String,
    /// In nanoseconds since the epoch.
    pub created_at: i128,
    /// In nanoseconds since the epoch.
    pub updated_at: i128,
}

/// A post as the database holds it.
#[derive(Debug, Clone, PartialEq, Eq)]
pub struct Post {
    pub id: u128,
    /// The user who wrote it.
    pub user_id: u128,
    pub title: String,
    pub description: Option<String>,
    /// In nanoseconds since the epoch.
    pub created_at: i128,
}

} // verus!
