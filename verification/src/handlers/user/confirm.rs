//! Confirming an email address with the token that was sent to it.
use vstd::prelude::*;
use vstd::string::StringExecFns;
use crate::domain::confirmation_token::ConfirmationToken;
use crate::handlers::response::{bare, said, Response, ResponseView, Status, StoreError};
use crate::utils::identity::Identity;
use crate::utils::jwt::{get_claims_from_token, Claims, Error};

verus! {

/// The path of the confirmation, before the token.
pub const CONFIRM_PATH: &'static str = "/confirm";

/// What happened, as far as the confirmation has got.
#[derive(Debug)]
pub enum ConfirmEvent {
    /// The request came in, with the token of its path if it has one.
    Requested(Option<String>),
    /// The store has looked for the token.
    TokenLoaded(Result<ConfirmationToken, StoreError>),
    /// The store has deleted the token of this user, or failed to.
    TokenDeleted(Identity, Result<(), StoreError>),
    /// The store has marked the address of this user as confirmed, or failed to.
    EmailConfirmed(Identity, Result<(), StoreError>),
}

/// What is to be done next.
#[derive(Debug)]
pub enum ConfirmAction {
    /// Look for the token with this text.
    LoadToken(String),
    /// Delete this token.
    DeleteToken(ConfirmationToken),
    /// Mark the address of this user as confirmed.
    ConfirmEmail(Identity),
    /// Answer the request.
    Respond(Response),
}

/// What is said of a request without a token in its path.
pub open spec fn no_token_message() -> Seq<char> {
    "No URL parameter for confirmation token was provided. Request URL should be '/confirm/{confirmation_token}'"@
}

/// What is said of a token that claims to be issued after now.
pub open spec fn issued_later_message() -> Seq<char> {
    "Invalid token, issued_at time is later than current timestamp"@
}

/// What is said of a token that names another user.
pub open spec fn wrong_user_message() -> Seq<char> {
    "Confirmation token does not belong to this user"@
}

/// What is said of a token that has ended.
pub open spec fn expired_message() -> Seq<char> {
    "Confirmation token is expired"@
}

/// What is said of an account that the store does not hold.
pub open spec fn user_not_found_message(user_id: Identity) -> Seq<char> {
    "User not found for confirmation token user_id "@ + user_id.text()
}

/// What is wrong with the claims of a confirmation token that the store
/// holds for `user_id`, at the moment `now`, the first fault only: the
/// token was refused; it was issued after now; it names another user; it
/// has ended. `None` where nothing is wrong.
pub open spec fn claims_fault(claims: Result<Claims, Error>, user_id: Identity, now: usize) -> Option<
    ResponseView,
> {
    match claims {
        Err(_) => Some(bare(Status::InternalServerError)),
        Ok(c) => if c.iat > now {
            Some(said(Status::Unauthorized, issued_later_message()))
        } else if c.sub@ != user_id.text() {
            Some(said(Status::Forbidden, wrong_user_message()))
        } else if c.exp <= now {
            Some(said(Status::Unauthorized, expired_message()))
        } else {
            None
        },
    }
}

/// The answer that refuses the claims of a confirmation token, or `None`
/// where they are in order.
pub fn check_claims(claims: &Result<Claims, Error>, user_id: Identity, now: usize) -> (refusal:
    Option<Response>)
    ensures
        match refusal {
            Some(r) => claims_fault(*claims, user_id, now) == Some(r@),
            None => claims_fault(*claims, user_id, now) is None,
        },
{
    match claims {
        Err(_) => Some(Response::finish(Status::InternalServerError)),
        Ok(c) => {
            if c.iat > now {
                Some(
                    Response::text(
                        Status::Unauthorized,
                        "Invalid token, issued_at time is later than current timestamp",
                    ),
                )
            } else if !c.sub.as_str().eq(user_id.to_text().as_str()) {
                Some(
                    Response::text(
                        Status::Forbidden,
                        "Confirmation token does not belong to this user",
                    ),
                )
            } else if c.exp <= now {
                Some(Response::text(Status::Unauthorized, "Confirmation token is expired"))
            } else {
                None
            }
        },
    }
}

/// What to do with a token that the store holds, given the claims that
/// were read from it: refuse them, or go on to delete the token.
pub fn after_claims(token: ConfirmationToken, claims: &Result<Claims, Error>, now: usize) -> (action:
    ConfirmAction)
    ensures
        match claims_fault(*claims, token@.user_id, now) {
            Some(refusal) => action matches ConfirmAction::Respond(r) && r@ == refusal,
            None => action matches ConfirmAction::DeleteToken(t) && t@ == token@,
        },
{
    match check_claims(claims, token.user_id(), now) {
        Some(refusal) => ConfirmAction::Respond(refusal),
        None => ConfirmAction::DeleteToken(token),
    }
}

/// The answer to a failed search for the token.
pub fn token_missing(error: &StoreError) -> (response: Response)
    ensures
        response@ == bare(
            match error {
                StoreError::RowNotFound => Status::NotFound,
                StoreError::Other(_) => Status::InternalServerError,
            },
        ),
{
    match error {
        StoreError::RowNotFound => Response::finish(Status::NotFound),
        StoreError::Other(_) => Response::finish(Status::InternalServerError),
    }
}

/// The answer once the store has tried to mark the address as confirmed.
pub fn confirmed(user_id: Identity, outcome: &Result<(), StoreError>) -> (response: Response)
    ensures
        response@ == match outcome {
            Ok(_) => bare(Status::Success),
            Err(StoreError::RowNotFound) => said(Status::NotFound, user_not_found_message(user_id)),
            Err(StoreError::Other(_)) => bare(Status::InternalServerError),
        },
{
    match outcome {
        Ok(_) => Response::finish(Status::Success),
        Err(StoreError::RowNotFound) => {
            let mut body = "User not found for confirmation token user_id ".to_owned();
            body.append(user_id.to_text().as_str());
            Response::body(Status::NotFound, body)
        },
        Err(StoreError::Other(_)) => Response::finish(Status::InternalServerError),
    }
}

/// The next thing to do for a confirmation, at the moment `now`. A
/// request without a token is refused; with one, the token is looked for.
/// A token that is found has its claims read and checked, and is deleted
/// where they are in order. Once it is deleted the address is marked as
/// confirmed, and the outcome of that is the answer. Every failure of the
/// store ends the confirmation with an answer.
pub fn confirm(event: ConfirmEvent, now: usize) -> (action: ConfirmAction)
    ensures
        match event {
            ConfirmEvent::Requested(None) => action matches ConfirmAction::Respond(r) && r@ == said(
                Status::BadRequest,
                no_token_message(),
            ),
            ConfirmEvent::Requested(Some(token)) => action matches ConfirmAction::LoadToken(t) && t
                == token,
            ConfirmEvent::TokenLoaded(Err(StoreError::RowNotFound)) => action matches ConfirmAction::Respond(
                r,
            ) && r@ == bare(Status::NotFound),
            ConfirmEvent::TokenLoaded(Err(StoreError::Other(_))) => action matches ConfirmAction::Respond(
                r,
            ) && r@ == bare(Status::InternalServerError),
            ConfirmEvent::TokenLoaded(Ok(token)) => exists|claims: Result<Claims, Error>|
                match #[trigger] claims_fault(claims, token@.user_id, now) {
                    Some(refusal) => action matches ConfirmAction::Respond(r) && r@ == refusal,
                    None => action matches ConfirmAction::DeleteToken(t) && t@ == token@,
                },
            ConfirmEvent::TokenDeleted(_, Err(_)) => action matches ConfirmAction::Respond(r) && r@
                == bare(Status::InternalServerError),
            ConfirmEvent::TokenDeleted(user_id, Ok(_)) => action matches ConfirmAction::ConfirmEmail(
                id,
            ) && id == user_id,
            ConfirmEvent::EmailConfirmed(user_id, outcome) => action matches ConfirmAction::Respond(
                r,
            ) && r@ == match outcome {
                Ok(_) => bare(Status::Success),
                Err(StoreError::RowNotFound) => said(
                    Status::NotFound,
                    user_not_found_message(user_id),
                ),
                Err(StoreError::Other(_)) => bare(Status::InternalServerError),
            },
        },
{
    match event {
        ConfirmEvent::Requested(None) => ConfirmAction::Respond(
            Response::text(
                Status::BadRequest,
                "No URL parameter for confirmation token was provided. Request URL should be '/confirm/{confirmation_token}'",
            ),
        ),
        ConfirmEvent::Requested(Some(token)) => ConfirmAction::LoadToken(token),
        ConfirmEvent::TokenLoaded(Err(error)) => ConfirmAction::Respond(token_missing(&error)),
        ConfirmEvent::TokenLoaded(Ok(token)) => {
            let claims = get_claims_from_token(token.expose());
            let action = after_claims(token, &claims, now);
            assert(match claims_fault(claims, token@.user_id, now) {
                Some(refusal) => action matches ConfirmAction::Respond(r) && r@ == refusal,
                None => action matches ConfirmAction::DeleteToken(t) && t@ == token@,
            });
            action
        },
        ConfirmEvent::TokenDeleted(_, Err(_)) => ConfirmAction::Respond(
            Response::finish(Status::InternalServerError),
        ),
        ConfirmEvent::TokenDeleted(user_id, Ok(_)) => ConfirmAction::ConfirmEmail(user_id),
        ConfirmEvent::EmailConfirmed(user_id, outcome) => ConfirmAction::Respond(
            confirmed(user_id, &outcome),
        ),
    }
}

} // verus!
