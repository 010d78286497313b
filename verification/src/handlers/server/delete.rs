//! Deleting a server: marking it as deleted, or removing it for good.
use vstd::prelude::*;
use vstd::string::StringExecFns;
use crate::domain::server::Server;
use crate::handlers::response::{bare, said, Response, Status, StoreError};
use crate::utils::identity::Identity;

verus! {

/// What is said of a deletion that has happened already.
pub open spec fn already_deleted_message(id: Identity) -> Seq<char> {
    "server "@ + id.text() + " has already been soft deleted"@
}

/// What is said of what the store does not hold.
pub open spec fn not_found_message(id: Identity) -> Seq<char> {
    "server "@ + id.text() + " not found"@
}

/// What is said when the store fails to mark a server as deleted.
pub open spec fn soft_delete_failed_message(id: Identity, reason: Seq<char>) -> Seq<char> {
    "failed to soft delete server "@ + id.text() + ": "@ + reason
}

/// What is said when the store fails to remove for good.
pub open spec fn hard_delete_failed_message(id: Identity, reason: Seq<char>) -> Seq<char> {
    "failed to hard delete server "@ + id.text() + ": "@ + reason
}

/// The text `<front><id><rest>`.
fn about(front: &str, id: Identity, rest: &str) -> (text: String)
    ensures
        text@ == front@ + id.text() + rest@,
{
    let mut text = front.to_owned();
    text.append(id.to_text().as_str());
    text.append(rest);
    text
}

/// The text `<front><id>: <reason>`.
fn failure(front: &str, id: Identity, reason: &str) -> (text: String)
    ensures
        text@ == front@ + id.text() + ": "@ + reason@,
{
    let mut text = about(front, id, ": ");
    text.append(reason);
    text
}

/// The answer that ends a soft deletion before it starts, given what the
/// store found of the server `id`: one that is deleted already or does
/// not exist is refused. `None` where the server is to be marked as deleted.
pub fn before_soft_delete(id: Identity, found: &Result<Server, StoreError>) -> (refusal: Option<
    Response,
>)
    ensures
        match found {
            Ok(server) => if server@.deleted_at is Some {
                refusal matches Some(r) && r@ == said(
                    Status::BadRequest,
                    already_deleted_message(id),
                )
            } else {
                refusal is None
            },
            Err(StoreError::RowNotFound) => refusal matches Some(r) && r@ == said(
                Status::NotFound,
                not_found_message(id),
            ),
            Err(StoreError::Other(reason)) => refusal matches Some(r) && r@ == said(
                Status::InternalServerError,
                soft_delete_failed_message(id, reason@),
            ),
        },
{
    match found {
        Ok(server) => if server.is_deleted() {
            Some(
                Response::body(
                    Status::BadRequest,
                    about("server ", id, " has already been soft deleted"),
                ),
            )
        } else {
            None
        },
        Err(StoreError::RowNotFound) => Some(
            Response::body(Status::NotFound, about("server ", id, " not found")),
        ),
        Err(StoreError::Other(reason)) => Some(
            Response::body(
                Status::InternalServerError,
                failure("failed to soft delete server ", id, reason.as_str()),
            ),
        ),
    }
}

/// The answer once the store has tried to mark the server as deleted.
pub fn soft_delete(outcome: &Result<(), StoreError>) -> (response: Response)
    ensures
        response@ == bare(
            if outcome is Ok {
                Status::Success
            } else {
                Status::InternalServerError
            },
        ),
{
    match outcome {
        Ok(_) => Response::finish(Status::Success),
        Err(_) => Response::finish(Status::InternalServerError),
    }
}

/// The answer once the store has tried to remove the server `id` for good.
pub fn hard_delete(id: Identity, outcome: &Result<(), StoreError>) -> (response: Response)
    ensures
        response@ == match outcome {
            Ok(_) => bare(Status::Success),
            Err(StoreError::RowNotFound) => said(Status::NotFound, not_found_message(id)),
            Err(StoreError::Other(reason)) => said(
                Status::InternalServerError,
                hard_delete_failed_message(id, reason@),
            ),
        },
{
    match outcome {
        Ok(_) => Response::finish(Status::Success),
        Err(StoreError::RowNotFound) => Response::body(
            Status::NotFound,
            about("server ", id, " not found"),
        ),
        Err(StoreError::Other(reason)) => Response::body(
            Status::InternalServerError,
            failure("failed to hard delete server ", id, reason.as_str()),
        ),
    }
}

} // verus!
