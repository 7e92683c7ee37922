//! The page of posts: the form for a new post, and the star on each post.

use vstd::prelude::*;
use crate::common::errors::{ErrorResponse, ErrorTypes};
use crate::common::forms::PostsUpdateForm;
use crate::common::posts::ResponsePost;

verus! {

/// The form for a new post, as the page holds it.
#[derive(Debug, Clone, PartialEq, Eq)]
pub struct FormData {
    pub title: String,
    pub description: Option<String>,
}

impl Default for FormData {
    fn default() -> (f: Self)
        ensures
            f.title@ == Seq::<char>::empty(),
            f.description is None,
    {
        FormData { title: String::new(), description: None }
    }
}

/// What a click on the star of `post` asks for: the opposite mark.
pub fn toggled(post: &ResponsePost) -> (form: PostsUpdateForm)
    ensures
        form == (PostsUpdateForm { id: post.id, important: !post.important }),
{
    PostsUpdateForm { id: post.id, important: !post.important }
}

/// Whether a failed request sends the user to the login page: it does where
/// the service refused the caller's credentials.
pub fn needs_login(error: &Option<ErrorResponse>) -> (b: bool)
    ensures
        b == (*error matches Some(e) && e.error_type is Auth),
{
    match error {
        Some(e) => match e.error_type {
            ErrorTypes::Auth(_) => true,
            _ => false,
        },
        None => false,
    }
}

/// Whether a failure is shown to the user: refusals of credentials and of
/// form data are, failures of the machinery are not.
pub fn is_listed(error: &ErrorResponse) -> (b: bool)
    ensures
        b == (error.error_type is Auth || error.error_type == ErrorTypes::ValidationError),
{
    match error.error_type {
        ErrorTypes::Auth(_) => true,
        ErrorTypes::ValidationError => true,
        _ => false,
    }
}

} // verus!
