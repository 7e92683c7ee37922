//! The rules that the queries follow: what each one does with what the
//! database gave. The queries themselves are made by the caller.

use vstd::prelude::*;
use crate::common::forms::PostsUpdateForm;
use crate::common::posts::ResponsePost;
use crate::db::models::{Post, User};
use crate::db::{checked_password, unit_view, verification, verify_password_hash};
use crate::errors::{Auth, Error, ErrorTypes, ErrorView};
use crate::schema::user::NewUser;

verus! {

/// What is reported where no connection to the database can be had.
pub const NO_CONNECTION: &'static str = "Failed to get db connection pool!";

/// What is answered to a signup under a name that is taken.
pub const NAME_TAKEN: &'static str = "The username already exists!";

/// What is answered to a login under a name that nobody has.
pub const NO_SUCH_USER: &'static str = "User not found. Try to check your username!";

/// What is answered where the identity of a session belongs to no user.
pub const NO_SUCH_ID: &'static str = "Invalid Uuid inside refresh token!";

/// The failure to get a connection, with the pool's own words as the cause.
pub fn connection_failed(cause: &str) -> (e: Error)
    ensures
        e@ == ErrorView::caused(cause@, NO_CONNECTION@, ErrorTypes::DbError),
{
    Error::caused(cause, NO_CONNECTION, ErrorTypes::DbError)
}

/// The failure of a statement, with the database's own words as the cause
/// and nothing for the client.
pub fn statement_failed(cause: &str) -> (e: Error)
    ensures
        e@ == (ErrorView { cause: Some(cause@), message: None, error_type: ErrorTypes::DbError }),
{
    Error::new(Some(cause.to_owned()), None, ErrorTypes::DbError)
}

/// Decides a signup once the database has been asked for the name: a name
/// that is taken is refused, else `user` is the record to insert.
pub fn db_add_user(user: User, name_taken: bool) -> (r: Result<User, Error>)
    ensures
        match r {
            Ok(u) => !name_taken && u == user,
            Err(e) => name_taken && e@ == ErrorView::plain(
                NAME_TAKEN@,
                ErrorTypes::Auth(Auth::Authentication),
            ),
        },
{
    if name_taken {
        Err(Error::plain(NAME_TAKEN, ErrorTypes::Auth(Auth::Authentication)))
    } else {
        Ok(user)
    }
}

/// What [`db_check_user`] returns, but for the record itself.
pub open spec fn check_user_spec(password: Seq<char>, found: Option<User>) -> Result<
    (),
    ErrorView,
> {
    match found {
        None => Err(ErrorView::plain(NO_SUCH_USER@, ErrorTypes::Auth(Auth::Authentication))),
        Some(record) => verification(checked_password(record.password@, password)),
    }
}

/// Decides a login once the database has been asked for the name: nobody of
/// that name, or a password that does not fit the stored hash, is refused;
/// else the stored record is the user.
pub fn db_check_user(user: &NewUser, found: Option<User>) -> (r: Result<User, Error>)
    ensures
        match r {
            Ok(u) => found == Some(u) && check_user_spec(user.password.0@, found) is Ok,
            Err(e) => check_user_spec(user.password.0@, found) == Err::<(), _>(e@),
        },
{
    match found {
        None => Err(Error::plain(NO_SUCH_USER, ErrorTypes::Auth(Auth::Authentication))),
        Some(record) => {
            match verify_password_hash(record.password.as_str(), user.password.0.as_str()) {
                Err(e) => Err(e),
                Ok(()) => Ok(record),
            }
        },
    }
}

/// Decides a lookup by identifier: an identifier that belongs to nobody is
/// refused.
pub fn db_find_user(found: Option<User>) -> (r: Result<User, Error>)
    ensures
        match r {
            Ok(u) => found == Some(u),
            Err(e) => found is None && e@ == ErrorView::plain(
                NO_SUCH_ID@,
                ErrorTypes::Auth(Auth::Authentication),
            ),
        },
{
    match found {
        None => Err(Error::plain(NO_SUCH_ID, ErrorTypes::Auth(Auth::Authentication))),
        Some(record) => Ok(record),
    }
}

/// A stored post as the client sees it, with the given mark.
pub open spec fn response_of(post: Post, important: bool) -> ResponsePost {
    ResponsePost {
        id: post.id,
        important,
        title: post.title,
        description: post.description,
        created_at: post.created_at,
    }
}

/// The posts as the client sees them, each marked where its identifier is
/// among `important`.
pub open spec fn marked(posts: Seq<Post>, important: Seq<u128>) -> Seq<ResponsePost> {
    posts.map_values(|post: Post| response_of(post, important.contains(post.id)))
}

/// The posts with the marked ones first. Among the marked ones, and among
/// the others, the order stays as it was.
pub open spec fn important_first(posts: Seq<ResponsePost>) -> Seq<ResponsePost> {
    posts.filter(|post: ResponsePost| post.important) + posts.filter(
        |post: ResponsePost| !post.important,
    )
}

fn copied(description: &Option<String>) -> (r: Option<String>)
    ensures
        r == *description,
{
    match description {
        Some(text) => Some(text.clone()),
        None => None,
    }
}

fn same(post: &ResponsePost) -> (r: ResponsePost)
    ensures
        r == *post,
{
    ResponsePost {
        id: post.id,
        important: post.important,
        title: post.title.clone(),
        description: copied(&post.description),
        created_at: post.created_at,
    }
}

/// A stored post as the client sees it, with the given mark.
pub fn respond(post: &Post, important: bool) -> (r: ResponsePost)
    ensures
        r == response_of(*post, important),
{
    ResponsePost {
        id: post.id,
        important,
        title: post.title.clone(),
        description: copied(&post.description),
        created_at: post.created_at,
    }
}

/// Whether `id` is among `ids`.
pub fn is_among(ids: &Vec<u128>, id: u128) -> (b: bool)
    ensures
        b == ids@.contains(id),
{
    let mut i: usize = 0;
    while i < ids.len()
        invariant
            i <= ids.len(),
            forall|k: int| 0 <= k < i ==> ids@[k] != id,
        decreases ids.len() - i,
    {
        if ids[i] == id {
            return true;
        }
        i += 1;
    }
    false
}

/// The posts as the client sees them, each marked where its identifier is
/// among `important`.
pub fn mark_posts(posts: &Vec<Post>, important: &Vec<u128>) -> (r: Vec<ResponsePost>)
    ensures
        r@ == marked(posts@, important@),
{
    let mut out: Vec<ResponsePost> = Vec::new();
    let mut i: usize = 0;
    while i < posts.len()
        invariant
            i <= posts.len(),
            out@ == marked(posts@.take(i as int), important@),
        decreases posts.len() - i,
    {
        let flag = is_among(important, posts[i].id);
        out.push(respond(&posts[i], flag));
        i += 1;
    }
    assert(posts@.take(posts.len() as int) == posts@);
    out
}

/// Appends to `out` the posts whose mark is `flag`, in their order.
fn select(posts: &Vec<ResponsePost>, flag: bool, out: &mut Vec<ResponsePost>)
    ensures
        final(out)@ == old(out)@ + posts@.filter(|post: ResponsePost| post.important == flag),
{
    let ghost pred = |post: ResponsePost| post.important == flag;
    let ghost before = out@;
    let mut i: usize = 0;
    proof {
        reveal(Seq::filter);
        assert(posts@.take(0).filter(pred) == Seq::<ResponsePost>::empty());
    }
    while i < posts.len()
        invariant
            i <= posts.len(),
            pred == |post: ResponsePost| post.important == flag,
            out@ == before + posts@.take(i as int).filter(pred),
        decreases posts.len() - i,
    {
        proof {
            assert(posts@.take(i + 1) == posts@.take(i as int).push(posts@[i as int]));
            posts@.take(i as int).lemma_filter_push(posts@[i as int], pred);
        }
        if posts[i].important == flag {
            out.push(same(&posts[i]));
        }
        i += 1;
    }
    assert(posts@.take(posts.len() as int) == posts@);
}

/// The posts with the marked ones first. Among the marked ones, and among
/// the others, the order stays as it was.
pub fn sort_important_first(posts: &Vec<ResponsePost>) -> (r: Vec<ResponsePost>)
    ensures
        r@ == important_first(posts@),
{
    let mut out: Vec<ResponsePost> = Vec::new();
    select(posts, true, &mut out);
    select(posts, false, &mut out);
    proof {
        let yes = |post: ResponsePost| post.important == true;
        let no = |post: ResponsePost| post.important == false;
        assert(yes == (|post: ResponsePost| post.important)) by {
            assert(yes =~= (|post: ResponsePost| post.important));
        }
        assert(no == (|post: ResponsePost| !post.important)) by {
            assert(no =~= (|post: ResponsePost| !post.important));
        }
    }
    out
}

/// What the list of posts is for one user, given all posts, newest first,
/// and the identifiers of those that the user has marked: the marked ones
/// first, each group newest first.
pub fn db_get_posts(all_posts: &Vec<Post>, important_posts: &Vec<u128>) -> (r: Vec<ResponsePost>)
    ensures
        r@ == important_first(marked(all_posts@, important_posts@)),
{
    let response_posts = mark_posts(all_posts, important_posts);
    sort_important_first(&response_posts)
}

/// A post that was just stored, as the client sees it: nobody has marked
/// it yet.
pub fn db_add_post(db_post: &Post) -> (r: ResponsePost)
    ensures
        r == response_of(*db_post, false),
{
    respond(db_post, false)
}

/// What is to change in the table of marks.
#[derive(Debug, Clone, Copy, PartialEq, Eq, Structural)]
pub enum MarkChange {
    /// Insert the pair of user and post.
    Insert { user_id: u128, post_id: u128 },
    /// Delete the pair of user and post.
    Delete { user_id: u128, post_id: u128 },
}

/// What is to change in the table of marks for the user `user_id` when
/// `data` comes in: a mark is inserted, an unmarking deletes.
pub fn db_update_post(user_id: u128, data: PostsUpdateForm) -> (change: MarkChange)
    ensures
        change == if data.important {
            MarkChange::Insert { user_id, post_id: data.id }
        } else {
            MarkChange::Delete { user_id, post_id: data.id }
        },
{
    if data.important {
        MarkChange::Insert { user_id, post_id: data.id }
    } else {
        MarkChange::Delete { user_id, post_id: data.id }
    }
}

} // verus!
