//! The two forms of the authorization page.

use vstd::prelude::*;

verus! {

/// Which form the authorization page shows.
#[derive(Debug, Clone, Copy, PartialEq, Eq, Structural)]
pub enum FormType {
    SignUp,
    LogIn,
}

/// The heading of a form and the label of its button.
#[derive(Debug, Clone, PartialEq, Eq)]
pub struct FormSettings {
    pub title: String,
    pub value: String,
}

impl FormType {
    /// The route that the form is sent to.
    pub open spec fn uri_spec(self) -> Seq<char> {
        match self {
            FormType::LogIn => "/auth/login"@,
            FormType::SignUp => "/auth/signup"@,
        }
    }

    /// The heading of the form.
    pub open spec fn title_spec(self) -> Seq<char> {
        match self {
            FormType::SignUp => "Create an account!"@,
            FormType::LogIn => "Welcome back!"@,
        }
    }

    /// The label of the form's button.
    pub open spec fn value_spec(self) -> Seq<char> {
        match self {
            FormType::SignUp => "Sign Up"@,
            FormType::LogIn => "Log In"@,
        }
    }

    /// The route that the form is sent to.
    pub fn uri(&self) -> (s: String)
        ensures
            s@ == self.uri_spec(),
    {
        match self {
            FormType::LogIn => "/auth/login".to_owned(),
            FormType::SignUp => "/auth/signup".to_owned(),
        }
    }
}

impl vstd::std_specs::convert::FromSpecImpl<FormType> for FormSettings {
    /// Strings have no value to name in a contract: what `from` returns is
    /// stated over their characters instead.
    open spec fn obeys_from_spec() -> bool {
        false
    }

    open spec fn from_spec(value: FormType) -> Self {
        arbitrary()
    }
}

impl From<FormType> for FormSettings {
    /// The heading and the button label of a form.
    fn from(value: FormType) -> (s: Self)
        ensures
            s.title@ == value.title_spec(),
            s.value@ == value.value_spec(),
    {
        match value {
            FormType::SignUp => FormSettings {
                title: "Create an account!".to_owned(),
                value: "Sign Up".to_owned(),
            },
            FormType::LogIn => FormSettings {
                title: "Welcome back!".to_owned(),
                value: "Log In".to_owned(),
            },
        }
    }
}

} // verus!
