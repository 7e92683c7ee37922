//! The forms that the routes accept.

use vstd::prelude::*;

verus! {

/// The form of the signup and login routes.
#[derive(Debug, Clone, PartialEq, Eq)]
pub struct FormData {
    pub username: String,
    pub password: String,
}

/// The form for a new post.
#[derive(Debug, Clone, PartialEq, Eq)]
pub struct PostsFormData {
    pub title: String,
    pub description: Option<String>,
}

/// The form that marks a post as important for the caller, or unmarks it.
#[derive(Debug, Clone, Copy, PartialEq, Eq, Structural)]
pub struct PostsUpdateData {
    /// The post's identifier.
    pub id: u128,
    pub important: bool,
}

} // verus!
