//! A post that a user submits: the title, once it has been found not to be
//! blank, with the description and the author.

use vstd::prelude::*;
use crate::clock;
use crate::db::models::Post;
use crate::errors::{Error, ErrorTypes, ErrorView};
use crate::ident;
use crate::ident::is_random_id;

verus! {

/// What is answered to a title that is blank.
pub const TITLE_REFUSED: &'static str = "Ivalid post's title! It can not be empty!";

/// A title that is not blank.
#[derive(Debug, Clone, PartialEq, Eq)]
pub struct Title(pub String);

/// A post as it was submitted.
#[derive(Debug, Clone, PartialEq, Eq)]
pub struct NewPost {
    pub title: Title,
    pub description: Option<String>,
    /// The user who wrote it.
    pub user_id: u128,
}

/// What `str::trim` leaves of a text: the text without the white space at
/// its start and at its end.
pub uninterp spec fn trimmed(text: Seq<char>) -> Seq<char>;

/// Calls `str::trim`.
///
/// Trusted: the result is a function of the text alone.
#[verifier::external_body]
fn trim(text: &str) -> (r: &str)
    ensures
        r@ == trimmed(text@),
{
    text.trim()
}

/// Whether a text holds nothing but white space.
pub open spec fn is_blank(text: Seq<char>) -> bool {
    trimmed(text).len() == 0
}

/// What [`Title::parse`] returns: the title itself, or the refusal.
pub open spec fn title_spec(title: Seq<char>) -> Result<Seq<char>, ErrorView> {
    if is_blank(title) {
        Err(ErrorView::plain(TITLE_REFUSED@, ErrorTypes::ValidationError))
    } else {
        Ok(title)
    }
}

/// The mathematical content of a result that holds a title.
pub open spec fn title_view(r: Result<Title, Error>) -> Result<Seq<char>, ErrorView> {
    match r {
        Ok(title) => Ok(title.0@),
        Err(e) => Err(e@),
    }
}

fn copied(description: &Option<String>) -> (r: Option<String>)
    ensures
        r == *description,
{
    match description {
        Some(text) => Some(text.clone()),
        None => None,
    }
}

impl Title {
    /// The title for a text of which `rest` is left once the white space
    /// around it is gone: refused where nothing is left.
    pub fn checked(title: &str, rest: &str) -> (r: Result<Title, Error>)
        ensures
            title_view(r) == if rest@.len() == 0 {
                Err::<Seq<char>, _>(ErrorView::plain(TITLE_REFUSED@, ErrorTypes::ValidationError))
            } else {
                Ok(title@)
            },
    {
        if rest.is_empty() {
            Err(Error::plain(TITLE_REFUSED, ErrorTypes::ValidationError))
        } else {
            Ok(Title(title.to_owned()))
        }
    }

    /// Accepts `title` unless it is blank. What is accepted is kept as it
    /// came, white space and all.
    pub fn parse(title: &str) -> (r: Result<Title, Error>)
        ensures
            title_view(r) == title_spec(title@),
    {
        Title::checked(title, trim(title))
    }
}

impl NewPost {
    /// A post with the given title, description and author, where the title
    /// is accepted.
    pub fn parse(title: &str, description: &Option<String>, user_id: u128) -> (r: Result<
        NewPost,
        Error,
    >)
        ensures
            match title_spec(title@) {
                Ok(text) => r matches Ok(post) && post.title.0@ == text && post.description
                    == *description && post.user_id == user_id,
                Err(e) => r matches Err(f) && f@ == e,
            },
    {
        match Title::parse(title) {
            Err(e) => Err(e),
            Ok(title) => Ok(NewPost { title, description: copied(description), user_id }),
        }
    }

    /// The record of this post with the given identifier and instant.
    pub fn record(&self, id: u128, created_at: i128) -> (post: Post)
        ensures
            post.id == id,
            post.user_id == self.user_id,
            post.title == self.title.0,
            post.description == self.description,
            post.created_at == created_at,
    {
        Post {
            id,
            user_id: self.user_id,
            title: self.title.0.clone(),
            description: copied(&self.description),
            created_at,
        }
    }

    /// The record of this post for the database: a fresh random identifier
    /// and the current instant.
    pub fn build(&self) -> (post: Post)
        ensures
            is_random_id(post.id),
            post.user_id == self.user_id,
            post.title == self.title.0,
            post.description == self.description,
    {
        self.record(ident::random_id(), clock::unix_nanos())
    }
}

} // verus!
