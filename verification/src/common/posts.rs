//! A post as the client sees it.

use vstd::prelude::*;

verus! {

/// A post, with the mark that the caller has put on it.
#[derive(Debug, Clone, PartialEq, Eq)]
pub struct ResponsePost {
    pub id: u128,
    pub important: bool,
    pub title: String,
    pub description: Option<String>,
    /// When the post was made, in nanoseconds since the epoch.
    pub created_at: i128,
}

} // verus!
