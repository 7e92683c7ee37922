//! A user as the client sees it.

use vstd::prelude::*;

verus! {

/// A user, without the password.
#[derive(Debug, Clone, PartialEq, Eq)]
pub struct ResponseUser {
    pub id: u128,
    pub username: String,
    /// In nanoseconds since the epoch.
    pub created_at: i128,
    /// In nanoseconds since the epoch.
    pub updated_at: i128,
}

} // verus!
