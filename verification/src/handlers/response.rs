//! Answers to requests, and what the store reports of a query.
use vstd::prelude::*;
use crate::utils::text::option_text;

verus! {

/// The status of an answer.
#[derive(Clone, Copy, Debug, PartialEq, Eq, Structural)]
pub enum Status {
    Success,
    NotModified,
    BadRequest,
    Unauthorized,
    Forbidden,
    NotFound,
    InternalServerError,
}

impl Status {
    /// The number of the status.
    pub fn code(&self) -> (code: u16)
        ensures
            code == match self {
                Status::Success => 200u16,
                Status::NotModified => 304,
                Status::BadRequest => 400,
                Status::Unauthorized => 401,
                Status::Forbidden => 403,
                Status::NotFound => 404,
                Status::InternalServerError => 500,
            },
    {
        match self {
            Status::Success => 200,
            Status::NotModified => 304,
            Status::BadRequest => 400,
            Status::Unauthorized => 401,
            Status::Forbidden => 403,
            Status::NotFound => 404,
            Status::InternalServerError => 500,
        }
    }
}

/// The answer to a request: a status, a body, and the token to send in
/// the authorization header, if any.
#[derive(Debug)]
pub struct Response {
    pub status: Status,
    pub body: String,
    pub authorization: Option<String>,
}

/// The mathematical value of a `Response`.
pub struct ResponseView {
    pub status: Status,
    pub body: Seq<char>,
    pub authorization: Option<Seq<char>>,
}

impl View for Response {
    type V = ResponseView;

    open spec fn view(&self) -> ResponseView {
        ResponseView {
            status: self.status,
            body: self.body@,
            authorization: option_text(self.authorization),
        }
    }
}

/// An answer without a body.
pub open spec fn bare(status: Status) -> ResponseView {
    ResponseView { status, body: Seq::empty(), authorization: None }
}

/// An answer with a body.
pub open spec fn said(status: Status, body: Seq<char>) -> ResponseView {
    ResponseView { status, body, authorization: None }
}

/// The answer that hands out a token.
pub open spec fn granted(token: Seq<char>) -> ResponseView {
    ResponseView { status: Status::Success, body: Seq::empty(), authorization: Some(token) }
}

impl Response {
    /// An answer without a body.
    pub fn finish(status: Status) -> (response: Self)
        ensures
            response@ == bare(status),
    {
        Response { status, body: String::new(), authorization: None }
    }

    /// An answer with a body.
    pub fn body(status: Status, body: String) -> (response: Self)
        ensures
            response@ == said(status, body@),
    {
        Response { status, body, authorization: None }
    }

    /// An answer with a body that is a fixed text.
    pub fn text(status: Status, body: &str) -> (response: Self)
        ensures
            response@ == said(status, body@),
    {
        Response { status, body: body.to_owned(), authorization: None }
    }

    /// The answer that hands out a token.
    pub fn grant(token: String) -> (response: Self)
        ensures
            response@ == granted(token@),
    {
        Response { status: Status::Success, body: String::new(), authorization: Some(token) }
    }
}

/// What the store reports of a query that failed.
#[derive(Debug)]
pub enum StoreError {
    /// The query found no row.
    RowNotFound,
    /// Anything else went wrong; the text says what.
    Other(String),
}

/// What a request holds under the name of a header.
#[derive(Debug)]
pub enum Header {
    /// The request has no such header.
    Missing,
    /// The header is no text; the text says why.
    Unreadable(String),
    /// The text of the header.
    Text(String),
}

} // verus!
