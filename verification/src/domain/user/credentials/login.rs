//! What a user types to say who signs in: an email address or a handle.
use vstd::prelude::*;
use super::email::{is_email, Email};
use super::handle::{handle_fault, Handle};

verus! {

/// The name that a user signs in with.
#[derive(Clone, Debug)]
pub enum Login {
    Email(Email),
    Handle(Handle),
}

/// The mathematical value of a `Login`.
pub enum LoginView {
    Email(Seq<char>),
    Handle(Seq<char>),
}

impl View for Login {
    type V = LoginView;

    open spec fn view(&self) -> LoginView {
        match self {
            Login::Email(e) => LoginView::Email(e@),
            Login::Handle(h) => LoginView::Handle(h@),
        }
    }
}

/// How a text is read as a login: as an email address where it has the
/// shape of one, else as a handle where it is one, else not at all.
pub open spec fn login_of(text: Seq<char>) -> Option<LoginView> {
    if is_email(text) {
        Some(LoginView::Email(text))
    } else if handle_fault(text) is None {
        Some(LoginView::Handle(text))
    } else {
        None
    }
}

/// The message for a text that is neither an email address nor a handle.
pub open spec fn invalid_login_message() -> Seq<char> {
    "Email/Handle invalid"@
}

impl Login {
    /// The login that a text is, or the message that it is none.
    pub fn parse(value: &str) -> (login: Result<Login, String>)
        ensures
            match login {
                Ok(l) => login_of(value@) == Some(l@),
                Err(message) => login_of(value@) is None && message@ == invalid_login_message(),
            },
    {
        match Email::parse_str(value) {
            Ok(email) => Ok(Login::Email(email)),
            Err(_) => match Handle::parse(value.to_owned()) {
                Ok(handle) => Ok(Login::Handle(handle)),
                Err(_) => Err("Email/Handle invalid".to_owned()),
            },
        }
    }

    /// The text of the login.
    pub open spec fn text(&self) -> Seq<char> {
        match self {
            Login::Email(e) => e@,
            Login::Handle(h) => h@,
        }
    }

    /// The text of the login.
    pub fn as_ref(&self) -> (text: &str)
        ensures
            text@ == self.text(),
    {
        match self {
            Login::Email(e) => e.as_ref(),
            Login::Handle(h) => h.as_ref(),
        }
    }
}

/// What a user sends to sign in.
#[derive(Clone, Debug)]
pub struct LoginData {
    pub login: Login,
    pub password: String,
}

impl LoginData {
    /// The sign-in data for the two texts of a sign-in form, or the
    /// message that the first is no login.
    pub fn new(login: &str, password: String) -> (data: Result<LoginData, String>)
        ensures
            match data {
                Ok(d) => login_of(login@) == Some(d.login@) && d.password == password,
                Err(message) => login_of(login@) is None && message@ == invalid_login_message(),
            },
    {
        match Login::parse(login) {
            Ok(login) => Ok(LoginData { login, password }),
            Err(message) => Err(message),
        }
    }
}

} // verus!
