//! The forms that the client sends.

use vstd::prelude::*;

verus! {

/// The form of the signup and login routes.
#[derive(Debug, Clone, PartialEq, Eq)]
pub struct UserFormData {
    pub username: String,
    pub password: String,
}

impl Default for UserFormData {
    fn default() -> (f: Self)
        ensures
            f.username@ == Seq::<char>::empty(),
            f.password@ == Seq::<char>::empty(),
    {
        UserFormData { username: String::new(), password: String::new() }
    }
}

/// The form for a new post.
#[derive(Debug, Clone, PartialEq, Eq)]
pub struct PostsFormData {
    pub title: String,
    pub description: Option<String>,
}

impl Default for PostsFormData {
    fn default() -> (f: Self)
        ensures
            f.title@ == Seq::<char>::empty(),
            f.description is None,
    {
        PostsFormData { title: String::new(), description: None }
    }
}

/// The form that marks a post as important for the caller, or unmarks it.
#[derive(Debug, Clone, Copy, PartialEq, Eq, Structural)]
pub struct PostsUpdateForm {
    /// The post's identifier.
    pub id: u128,
    pub important: bool,
}

impl Default for PostsUpdateForm {
    fn default() -> (f: Self)
        ensures
            f.id == 0,
            !f.important,
    {
        PostsUpdateForm { id: 0, important: false }
    }
}

} // verus!
