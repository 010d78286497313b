//! Replacing a server.
use vstd::prelude::*;
use crate::domain::server::{Server, ServerView};
use crate::handlers::response::{bare, said, Response, Status, StoreError};
use crate::utils::identity::Identity;

verus! {

/// What is said of a server that the store does not hold.
pub open spec fn server_not_found_message() -> Seq<char> {
    "Server not found"@
}

/// The server to save for a request that replaces the server `id`: the
/// server of the request, under that id.
pub fn update(id: Identity, details: Server) -> (server: Server)
    ensures
        server@ == (ServerView { id, ..details@ }),
{
    let mut server = details;
    server.set_id(id);
    server
}

/// The answer once the store has tried to save the server.
pub fn saved(outcome: &Result<(), StoreError>) -> (response: Response)
    ensures
        response@ == match outcome {
            Ok(_) => bare(Status::Success),
            Err(StoreError::RowNotFound) => said(Status::NotFound, server_not_found_message()),
            Err(StoreError::Other(_)) => bare(Status::InternalServerError),
        },
{
    match outcome {
        Ok(_) => Response::finish(Status::Success),
        Err(StoreError::RowNotFound) => Response::text(Status::NotFound, "Server not found"),
        Err(StoreError::Other(_)) => Response::finish(Status::InternalServerError),
    }
}

} // verus!
