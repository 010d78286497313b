//! Deleting an account: marking it as deleted, or removing it for good.
use vstd::prelude::*;
use vstd::string::StringExecFns;
use crate::domain::user::User;
use crate::handlers::response::{bare, said, Response, Status, StoreError};
use crate::utils::identity::Identity;

verus! {

/// What is said of a deletion that has happened already.
pub open spec fn already_deleted_message(id: Identity) -> Seq<char> {
    "user "@ + id.text() + " has already been soft deleted"@
}

/// What is said of what the store does not hold.
pub open spec fn not_found_message(id: Identity) -> Seq<char> {
    "user "@ + id.text() + " not found"@
}

/// What is said when the store fails to remove for good.
pub open spec fn hard_delete_failed_message(id: Identity, reason: Seq<char>) -> Seq<char> {
    "failed to hard delete user "@ + id.text() + ": "@ + reason
}

/// The text `user <id><rest>`.
fn about_user(id: Identity, rest: &str) -> (text: String)
    ensures
        text@ == "user "@ + id.text() + rest@,
{
    let mut text = "user ".to_owned();
    text.append(id.to_text().as_str());
    text.append(rest);
    text
}

/// The answer that ends a soft deletion before it starts, given what the
/// store found of the account `id`: one that is deleted already or does
/// not exist is refused. `None` where the account is to be marked as deleted.
pub fn before_soft_delete(id: Identity, found: &Result<User, StoreError>) -> (refusal: Option<
    Response,
>)
    ensures
        match found {
            Ok(user) => if user@.deleted_at is Some {
                refusal matches Some(r) && r@ == said(
                    Status::BadRequest,
                    already_deleted_message(id),
                )
            } else {
                refusal is None
            },
            Err(StoreError::RowNotFound) => refusal matches Some(r) && r@ == said(
                Status::NotFound,
                not_found_message(id),
            ),
            Err(StoreError::Other(_)) => refusal matches Some(r) && r@ == bare(
                Status::InternalServerError,
            ),
        },
{
    match found {
        Ok(user) => if user.is_deleted() {
            Some(Response::body(Status::BadRequest, about_user(id, " has already been soft deleted")))
        } else {
            None
        },
        Err(StoreError::RowNotFound) => Some(
            Response::body(Status::NotFound, about_user(id, " not found")),
        ),
        Err(StoreError::Other(_)) => Some(Response::finish(Status::InternalServerError)),
    }
}

/// The answer once the store has tried to mark the account as deleted.
pub fn soft_delete(outcome: &Result<(), StoreError>) -> (response: Response)
    ensures
        response@ == bare(
            if outcome is Ok {
                Status::Success
            } else {
                Status::InternalServerError
            },
        ),
{
    match outcome {
        Ok(_) => Response::finish(Status::Success),
        Err(_) => Response::finish(Status::InternalServerError),
    }
}

/// The answer once the store has tried to remove the account `id` for good.
pub fn hard_delete(id: Identity, outcome: &Result<(), StoreError>) -> (response: Response)
    ensures
        response@ == match outcome {
            Ok(_) => bare(Status::Success),
            Err(StoreError::RowNotFound) => said(Status::NotFound, not_found_message(id)),
            Err(StoreError::Other(reason)) => said(
                Status::InternalServerError,
                hard_delete_failed_message(id, reason@),
            ),
        },
{
    match outcome {
        Ok(_) => Response::finish(Status::Success),
        Err(StoreError::RowNotFound) => Response::body(
            Status::NotFound,
            about_user(id, " not found"),
        ),
        Err(StoreError::Other(reason)) => {
            let mut body = "failed to hard delete user ".to_owned();
            body.append(id.to_text().as_str());
            body.append(": ");
            body.append(reason.as_str());
            Response::body(Status::InternalServerError, body)
        },
    }
}

} // verus!
