//! The pages of the client: where each one lives, and what the notice on a
//! page says and leads to.

use vstd::prelude::*;

verus! {

/// A page of the client.
#[derive(Debug, Clone, Copy, PartialEq, Eq, Structural)]
pub enum Route {
    Home,
    SignUp,
    LogIn,
    Posts,
    AddPost,
    NotFound,
}

impl Route {
    /// The address of the page.
    pub open spec fn path_spec(self) -> Seq<char> {
        match self {
            Route::Home => "/"@,
            Route::SignUp => "/signup"@,
            Route::LogIn => "/login"@,
            Route::Posts => "/posts"@,
            Route::AddPost => "/posts/add"@,
            Route::NotFound => "/404"@,
        }
    }

    /// The page that the notice on this page leads to, if the page has a
    /// notice: after signing up one logs in, after logging in or adding a
    /// post one sees the posts, and from a page that does not exist one goes
    /// home.
    pub open spec fn next_spec(self) -> Option<Route> {
        match self {
            Route::SignUp => Some(Route::LogIn),
            Route::LogIn => Some(Route::Posts),
            Route::AddPost => Some(Route::Posts),
            Route::NotFound => Some(Route::Home),
            Route::Home => None,
            Route::Posts => None,
        }
    }

    /// What the notice on this page says, if the page has a notice.
    pub open spec fn notice_spec(self) -> Option<Seq<char>> {
        match self {
            Route::SignUp => Some("You’ve been signed up successfully!"@),
            Route::LogIn => Some("You’ve been signed in successfully!"@),
            Route::AddPost => Some("Pos added successfully!"@),
            Route::NotFound => Some("404! Page not found!"@),
            Route::Home => None,
            Route::Posts => None,
        }
    }

    /// The words on a link to this page, for the pages that a notice can
    /// lead to.
    pub open spec fn label_spec(self) -> Option<Seq<char>> {
        match self {
            Route::LogIn => Some("Log In"@),
            Route::Posts => Some("Go to posts"@),
            Route::Home => Some("Home"@),
            Route::SignUp => None,
            Route::AddPost => None,
            Route::NotFound => None,
        }
    }

    /// The address of the page.
    pub fn path(&self) -> (s: &'static str)
        ensures
            s@ == self.path_spec(),
    {
        match self {
            Route::Home => "/",
            Route::SignUp => "/signup",
            Route::LogIn => "/login",
            Route::Posts => "/posts",
            Route::AddPost => "/posts/add",
            Route::NotFound => "/404",
        }
    }

    /// The page that the notice on this page leads to, if the page has a
    /// notice.
    pub fn next(&self) -> (r: Option<Route>)
        ensures
            r == self.next_spec(),
    {
        match self {
            Route::SignUp => Some(Route::LogIn),
            Route::LogIn => Some(Route::Posts),
            Route::AddPost => Some(Route::Posts),
            Route::NotFound => Some(Route::Home),
            Route::Home => None,
            Route::Posts => None,
        }
    }

    /// What the notice on this page says, if the page has a notice.
    pub fn notice(&self) -> (r: Option<&'static str>)
        ensures
            match r {
                Some(s) => self.notice_spec() == Some(s@),
                None => self.notice_spec() is None,
            },
    {
        match self {
            Route::SignUp => Some("You’ve been signed up successfully!"),
            Route::LogIn => Some("You’ve been signed in successfully!"),
            Route::AddPost => Some("Pos added successfully!"),
            Route::NotFound => Some("404! Page not found!"),
            Route::Home => None,
            Route::Posts => None,
        }
    }

    /// The words on a link to this page, for the pages that a notice can
    /// lead to.
    pub fn label(&self) -> (r: Option<&'static str>)
        ensures
            match r {
                Some(s) => self.label_spec() == Some(s@),
                None => self.label_spec() is None,
            },
    {
        match self {
            Route::LogIn => Some("Log In"),
            Route::Posts => Some("Go to posts"),
            Route::Home => Some("Home"),
            Route::SignUp => None,
            Route::AddPost => None,
            Route::NotFound => None,
        }
    }
}

/// Every notice leads to a page that a link can be labelled for.
pub proof fn lemma_every_notice_has_a_labelled_link(route: Route)
    ensures
        route.notice_spec() is Some <==> route.next_spec() is Some,
        route.next_spec() matches Some(next) ==> next.label_spec() is Some,
{
}

} // verus!
