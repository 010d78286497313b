//! Signing in with an email address or a handle and a password.
use vstd::prelude::*;
use crate::domain::user::credentials::login::{invalid_login_message, login_of, LoginData};
use crate::domain::user::User;
use crate::handlers::response::{bare, granted, said, Response, ResponseView, Status, StoreError};
use crate::utils::hashing::verdict_of;
use crate::utils::identity::Identity;
use crate::utils::jwt::{generate_token, is_token_for, Error};

verus! {

/// The path of the sign-in.
pub const LOGIN_PATH: &'static str = "/users/login";

/// The failed sign-ins after which an account is locked.
pub const MAX_FAILED_ATTEMPTS: i16 = 10;

/// What a sign-in form holds.
#[derive(Debug)]
pub struct LoginForm {
    pub login: String,
    pub password: String,
}

/// What happened, as far as the sign-in has got.
#[derive(Debug)]
pub enum LoginEvent {
    /// The form came in.
    Submitted(LoginForm),
    /// The store has looked for the account; the second part is the
    /// password that was typed.
    UserLoaded(Result<User, StoreError>, String),
    /// The store has saved the account, or failed to; the last part tells
    /// whether the password was the right one.
    UserSaved(Result<(), StoreError>, User, bool),
}

/// What is to be done next.
#[derive(Debug)]
pub enum LoginAction {
    /// Look for the account that signs in with this.
    FindUser(LoginData),
    /// Save this account; the second part tells whether the password was
    /// the right one.
    SaveUser(User, bool),
    /// Answer the request.
    Respond(Response),
}

/// What is said to an account whose address is not confirmed.
pub open spec fn unconfirmed_message() -> Seq<char> {
    "Account email has not been confirmed"@
}

/// What is said to an account that is locked.
pub open spec fn locked_message() -> Seq<char> {
    "Account is locked due to too many failed login attempts"@
}

/// Why an account may not sign in, whatever the password: its address is
/// not confirmed, or ten sign-ins have failed. `None` where it may.
pub open spec fn account_fault(email_confirmed: bool, failed_attempts: i16) -> Option<ResponseView> {
    if !email_confirmed {
        Some(said(Status::Unauthorized, unconfirmed_message()))
    } else if failed_attempts >= MAX_FAILED_ATTEMPTS {
        Some(said(Status::Forbidden, locked_message()))
    } else {
        None
    }
}

/// Whether a password is the one behind the hash that an account keeps.
pub open spec fn password_matches(kept: Seq<char>, password: Seq<char>) -> bool {
    verdict_of(kept, password) == Some(true)
}

/// Whether an answer ends a sign-in with the right password: it hands out
/// a token of this server for the user, or tells that none could be made.
pub open spec fn is_token_answer(response: ResponseView, user_id: Identity) -> bool {
    response == bare(Status::InternalServerError) || (response.authorization matches Some(token)
        && is_token_for(token, user_id) && response == granted(token))
}

/// The answer that turns an account away before its password is looked
/// at, or `None` where the account may sign in.
pub fn check_account(user: &User) -> (refusal: Option<Response>)
    ensures
        match refusal {
            Some(r) => account_fault(user@.email_confirmed, user@.failed_attempts) == Some(r@),
            None => account_fault(user@.email_confirmed, user@.failed_attempts) is None,
        },
{
    if !user.email_confirmed() {
        Some(Response::text(Status::Unauthorized, "Account email has not been confirmed"))
    } else if user.failed_attempts() >= MAX_FAILED_ATTEMPTS {
        Some(
            Response::text(
                Status::Forbidden,
                "Account is locked due to too many failed login attempts",
            ),
        )
    } else {
        None
    }
}

/// The answer to a search for the account that failed: an account that
/// does not exist is told nothing.
pub fn user_missing(error: &StoreError) -> (response: Response)
    ensures
        response@ == bare(
            match error {
                StoreError::RowNotFound => Status::Success,
                StoreError::Other(_) => Status::InternalServerError,
            },
        ),
{
    match error {
        StoreError::RowNotFound => Response::finish(Status::Success),
        StoreError::Other(_) => Response::finish(Status::InternalServerError),
    }
}

/// The answer that ends a sign-in with the right password, given the
/// token that was made for the user.
pub fn token_response(token: Result<String, Error>) -> (response: Response)
    ensures
        response@ == match token {
            Ok(t) => granted(t@),
            Err(_) => bare(Status::InternalServerError),
        },
        forall|user_id: Identity|
            (token matches Ok(t) ==> is_token_for(t@, user_id)) ==> #[trigger] is_token_answer(
                response@,
                user_id,
            ),
{
    match token {
        Ok(t) => Response::grant(t),
        Err(_) => Response::finish(Status::InternalServerError),
    }
}

/// What to do with an account that may sign in, given whether the
/// password was the right one: `None` where a token is due at once, else
/// the account to save first. The account is saved after a wrong password,
/// and after the right one where sign-ins have failed before.
pub fn after_password(user: User, matched: bool) -> (save: Result<User, User>)
    ensures
        match save {
            Ok(u) => (!matched || user@.failed_attempts > 0) && u == user,
            Err(u) => matched && user@.failed_attempts <= 0 && u == user,
        },
{
    if !matched || user.failed_attempts() > 0 {
        Ok(user)
    } else {
        Err(user)
    }
}

/// The next thing to do for a sign-in. A form whose login is neither an
/// address nor a handle is refused; else the account is looked for. An
/// account that is found is turned away where it is unconfirmed or
/// locked; else its password is compared with the hash that it keeps,
/// and it is saved, with the outcome of the comparison, where the
/// password was wrong or sign-ins have failed before. After a wrong
/// password the answer is empty; after the right one it carries a token
/// of this server for the account's user.
pub fn login(event: LoginEvent) -> (action: LoginAction)
    ensures
        match event {
            LoginEvent::Submitted(form) => match login_of(form.login@) {
                Some(login) => action matches LoginAction::FindUser(data) && data.login@ == login
                    && data.password == form.password,
                None => action matches LoginAction::Respond(r) && r@ == said(
                    Status::BadRequest,
                    invalid_login_message(),
                ),
            },
            LoginEvent::UserLoaded(Err(StoreError::RowNotFound), _) => action matches LoginAction::Respond(
                r,
            ) && r@ == bare(Status::Success),
            LoginEvent::UserLoaded(Err(StoreError::Other(_)), _) => action matches LoginAction::Respond(
                r,
            ) && r@ == bare(Status::InternalServerError),
            LoginEvent::UserLoaded(Ok(user), password) => match account_fault(
                user@.email_confirmed,
                user@.failed_attempts,
            ) {
                Some(refusal) => action matches LoginAction::Respond(r) && r@ == refusal,
                None => if !password_matches(user@.password, password@) || user@.failed_attempts
                    > 0 {
                    action matches LoginAction::SaveUser(u, matched) && u == user && matched
                        == password_matches(user@.password, password@)
                } else {
                    action matches LoginAction::Respond(r) && is_token_answer(r@, user@.id)
                },
            },
            LoginEvent::UserSaved(Err(_), _, _) => action matches LoginAction::Respond(r) && r@
                == bare(Status::InternalServerError),
            LoginEvent::UserSaved(Ok(_), _, false) => action matches LoginAction::Respond(r) && r@
                == bare(Status::Success),
            LoginEvent::UserSaved(Ok(_), user, true) => action matches LoginAction::Respond(r)
                && is_token_answer(r@, user@.id),
        },
{
    match event {
        LoginEvent::Submitted(form) => match LoginData::new(form.login.as_str(), form.password) {
            Ok(data) => LoginAction::FindUser(data),
            Err(message) => LoginAction::Respond(Response::body(Status::BadRequest, message)),
        },
        LoginEvent::UserLoaded(Err(error), _) => LoginAction::Respond(user_missing(&error)),
        LoginEvent::UserLoaded(Ok(user), password) => match check_account(&user) {
            Some(refusal) => LoginAction::Respond(refusal),
            None => {
                let matched = match user.password().compare(password.as_str()) {
                    Ok(same) => same,
                    Err(_) => false,
                };
                match after_password(user, matched) {
                    Ok(user) => LoginAction::SaveUser(user, matched),
                    Err(user) => LoginAction::Respond(token_response(generate_token(user.id()))),
                }
            },
        },
        LoginEvent::UserSaved(Err(_), _, _) => LoginAction::Respond(
            Response::finish(Status::InternalServerError),
        ),
        LoginEvent::UserSaved(Ok(_), _, false) => LoginAction::Respond(
            Response::finish(Status::Success),
        ),
        LoginEvent::UserSaved(Ok(_), user, true) => LoginAction::Respond(
            token_response(generate_token(user.id())),
        ),
    }
}

} // verus!
