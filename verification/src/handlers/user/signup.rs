//! Signing up: the account is stored, a confirmation token is stored for
//! it, and the token is sent to the new address.
use vstd::prelude::*;
use crate::domain::confirmation_token::{ConfirmationToken, ConfirmationTokenView};
use crate::domain::user::credentials::email::Email;
use crate::domain::user::{User, UserSignupFormData, UserView};
use crate::handlers::response::{bare, Response, Status, StoreError};
use crate::utils::clock::Timestamp;
use crate::utils::jwt::{generate_token, is_token_for, Error};

verus! {

/// The path of the sign-up.
pub const SIGNUP_PATH: &'static str = "/users/signup";

/// What happened, as far as the sign-up has got.
#[derive(Debug)]
pub enum SignupEvent {
    /// The form came in, at this moment.
    Submitted(UserSignupFormData, Timestamp),
    /// The store has saved the account, or failed to.
    UserSaved(Result<(), StoreError>, User),
    /// The store has saved the confirmation token of the account, or failed to.
    TokenSaved(Result<(), StoreError>, User, ConfirmationToken),
    /// The mail service has taken the confirmation email, or not.
    EmailSent(bool),
}

/// What is to be done next.
#[derive(Debug)]
pub enum SignupAction {
    /// Save this account.
    SaveUser(User),
    /// Save this confirmation token of this account.
    SaveToken(User, ConfirmationToken),
    /// Send this token to this address.
    SendEmail(Email, String),
    /// Answer the request.
    Respond(Response),
}

/// What to do once the account is stored, given the token that was made
/// for it: store the token, or give up where none could be made.
pub fn after_user_saved(user: User, token: Result<String, Error>) -> (action: SignupAction)
    ensures
        match token {
            Ok(text) => action matches SignupAction::SaveToken(u, t) && u == user && t@ == (
                ConfirmationTokenView { inner: text@, user_id: user@.id }
            ),
            Err(_) => action matches SignupAction::Respond(r) && r@ == bare(
                Status::InternalServerError,
            ),
        },
{
    match token {
        Ok(text) => {
            let confirmation_token = ConfirmationToken::new(text, user.id());
            SignupAction::SaveToken(user, confirmation_token)
        },
        Err(_) => SignupAction::Respond(Response::finish(Status::InternalServerError)),
    }
}

/// The next thing to do for a sign-up. The account of the form is saved;
/// then a token is made for it and saved; then the token is sent to the
/// account's address; then the request is answered. Every failure ends
/// the sign-up with an answer.
pub fn signup(event: SignupEvent) -> (action: SignupAction)
    ensures
        match event {
            SignupEvent::Submitted(form, now) => action matches SignupAction::SaveUser(user)
                && user@ == (UserView {
                id: form.id,
                email: form.email@,
                handle: form.handle@,
                password: form.password@,
                name: None,
                profile_photo: None,
                bio: None,
                failed_attempts: 0,
                email_confirmed: false,
                created_at: now,
                updated_at: now,
                deleted_at: None,
            }),
            SignupEvent::UserSaved(Err(_), _) => action matches SignupAction::Respond(r) && r@
                == bare(Status::InternalServerError),
            SignupEvent::UserSaved(Ok(_), user) => match action {
                SignupAction::SaveToken(u, t) => u == user && t@.user_id == user@.id
                    && is_token_for(t@.inner, user@.id),
                SignupAction::Respond(r) => r@ == bare(Status::InternalServerError),
                _ => false,
            },
            SignupEvent::TokenSaved(Err(_), _, _) => action matches SignupAction::Respond(r) && r@
                == bare(Status::InternalServerError),
            SignupEvent::TokenSaved(Ok(_), user, token) => action matches SignupAction::SendEmail(
                to,
                text,
            ) && to@ == user@.email && text@ == token@.inner,
            SignupEvent::EmailSent(sent) => action matches SignupAction::Respond(r) && r@ == bare(
                if sent {
                    Status::Success
                } else {
                    Status::InternalServerError
                },
            ),
        },
{
    match event {
        SignupEvent::Submitted(form, now) => SignupAction::SaveUser(User::from_signup(form, now)),
        SignupEvent::UserSaved(Err(_), _) => SignupAction::Respond(
            Response::finish(Status::InternalServerError),
        ),
        SignupEvent::UserSaved(Ok(_), user) => {
            let token = generate_token(user.id());
            after_user_saved(user, token)
        },
        SignupEvent::TokenSaved(Err(_), _, _) => SignupAction::Respond(
            Response::finish(Status::InternalServerError),
        ),
        SignupEvent::TokenSaved(Ok(_), user, token) => SignupAction::SendEmail(
            user.email(),
            token.inner(),
        ),
        SignupEvent::EmailSent(true) => SignupAction::Respond(Response::finish(Status::Success)),
        SignupEvent::EmailSent(false) => SignupAction::Respond(
            Response::finish(Status::InternalServerError),
        ),
    }
}

} // verus!
