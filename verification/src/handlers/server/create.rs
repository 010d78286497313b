//! Creating a server for the user that a request comes from.
use vstd::prelude::*;
use vstd::string::StringExecFns;
use vstd::utf8::encode_utf8;
use crate::domain::server::{Server, ServerView, MAX_SERVER_NAME_LENGTH};
use crate::handlers::response::{bare, said, Header, Response, ResponseView, Status, StoreError};
use crate::utils::identity::{uuid_parsed, Identity};
use crate::utils::jwt::{get_claims_from_token, Claims, Error};

verus! {

/// What is said of an authorization header that is no text.
pub open spec fn unreadable_header_message(reason: Seq<char>) -> Seq<char> {
    "Authorization header could not be cast to string: "@ + reason
}

/// What is said of a server name of more than fifty bytes.
pub open spec fn name_too_long_message() -> Seq<char> {
    "Server name is too long, must be no more than 50 characters"@
}

/// What is said of a token whose subject is no identity: that, and what
/// the UUID parser finds wrong with the subject.
pub open spec fn malformed_subject_message(reason: Seq<char>) -> Seq<char> {
    "Malformed JWT provided, sub is not a valid UUID: "@ + reason
}

/// Why a request to create a server is refused before its token is read:
/// it has no authorization header, or one that is no text.
pub open spec fn header_fault(authorization: Header) -> Option<ResponseView> {
    match authorization {
        Header::Missing => Some(bare(Status::Unauthorized)),
        Header::Unreadable(reason) => Some(
            said(Status::BadRequest, unreadable_header_message(reason@)),
        ),
        Header::Text(_) => None,
    }
}

/// Who is to own the server `name`, given the claims of the request's
/// token: the user that they name. The request is refused where the token
/// was, where the name takes more than fifty bytes, and where the token
/// names nobody, asked in this order.
pub open spec fn owner_of(claims: Result<Claims, Error>, name: Seq<char>) -> Result<
    Identity,
    ResponseView,
> {
    match claims {
        Err(_) => Err(bare(Status::Forbidden)),
        Ok(c) => if encode_utf8(name).len() > MAX_SERVER_NAME_LENGTH {
            Err(said(Status::BadRequest, name_too_long_message()))
        } else {
            match uuid_parsed(c.sub@) {
                Ok(bits) => Ok(Identity(bits)),
                Err(reason) => Err(said(Status::BadRequest, malformed_subject_message(reason))),
            }
        },
    }
}

/// The token of a request to create a server, or the answer that refuses
/// a request without one.
pub fn token_of(authorization: Header) -> (token: Result<String, Response>)
    ensures
        match token {
            Ok(t) => authorization == Header::Text(t),
            Err(r) => header_fault(authorization) == Some(r@),
        },
{
    match authorization {
        Header::Missing => Err(Response::finish(Status::Unauthorized)),
        Header::Unreadable(reason) => {
            let mut body = "Authorization header could not be cast to string: ".to_owned();
            body.append(reason.as_str());
            Err(Response::body(Status::BadRequest, body))
        },
        Header::Text(token) => Ok(token),
    }
}

/// The server to save for a request, given the claims of its token: the
/// server of the request, owned by the user that the claims name; or the
/// answer that refuses the request.
pub fn with_owner(server: Server, claims: &Result<Claims, Error>) -> (owned: Result<Server, Response>)
    ensures
        match owner_of(*claims, server@.name) {
            Ok(owner) => owned matches Ok(s) && s@ == (ServerView { owner_id: owner, ..server@ }),
            Err(refusal) => owned matches Err(r) && r@ == refusal,
        },
{
    match claims {
        Err(_) => Err(Response::finish(Status::Forbidden)),
        Ok(c) => {
            if server.name().as_str().as_bytes().len() > MAX_SERVER_NAME_LENGTH {
                return Err(
                    Response::text(
                        Status::BadRequest,
                        "Server name is too long, must be no more than 50 characters",
                    ),
                );
            }
            match Identity::try_parse(c.sub.as_str()) {
                Ok(owner) => {
                    let mut owned = server;
                    owned.set_owner_id(owner);
                    Ok(owned)
                },
                Err(reason) => {
                    let mut body = "Malformed JWT provided, sub is not a valid UUID: ".to_owned();
                    body.append(reason.as_str());
                    Err(Response::body(Status::BadRequest, body))
                },
            }
        },
    }
}

/// The server to save for a request to create one: the server of the
/// request, owned by the user that the request's token names; or the
/// answer that refuses the request.
pub fn create(server: Server, authorization: Header) -> (owned: Result<Server, Response>)
    ensures
        match header_fault(authorization) {
            Some(refusal) => owned matches Err(r) && r@ == refusal,
            None => exists|claims: Result<Claims, Error>|
                match #[trigger] owner_of(claims, server@.name) {
                    Ok(owner) => owned matches Ok(s) && s@ == (
                        ServerView { owner_id: owner, ..server@ }
                    ),
                    Err(refusal) => owned matches Err(r) && r@ == refusal,
                },
        },
{
    match token_of(authorization) {
        Err(refusal) => Err(refusal),
        Ok(token) => {
            let claims = get_claims_from_token(token);
            let owned = with_owner(server, &claims);
            assert(match owner_of(claims, server@.name) {
                Ok(owner) => owned matches Ok(s) && s@ == (
                    ServerView { owner_id: owner, ..server@ }
                ),
                Err(refusal) => owned matches Err(r) && r@ == refusal,
            });
            owned
        },
    }
}

/// The answer once the store has tried to save the new server: its id,
/// or the failure.
pub fn created(server: &Server, outcome: &Result<(), StoreError>) -> (response: Response)
    ensures
        response@ == match outcome {
            Ok(_) => said(Status::Success, server@.id.text()),
            Err(_) => bare(Status::InternalServerError),
        },
{
    match outcome {
        Ok(_) => Response::body(Status::Success, server.id().to_text()),
        Err(_) => Response::finish(Status::InternalServerError),
    }
}

} // verus!
