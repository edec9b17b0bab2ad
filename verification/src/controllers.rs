//! The transport's side of each operation: what a request carries, and what
//! is answered for each outcome.
//!
//! A handler here takes the repository and the request's values, makes the
//! one call, and gives the reply as a value. Sending it is left to the
//! caller.

pub mod book_controller;
pub mod library_controller;
pub mod member_controller;

use crate::error::RepoError;
use vstd::prelude::*;
use vstd::string::StringExecFns;

verus! {

/// The status of a reply.
#[derive(Debug, Clone, Copy, PartialEq, Eq, Structural)]
pub enum Status {
    Success,
    Created,
    NoContent,
    InternalServerError,
}

impl Status {
    /// The status as a number.
    pub open spec fn number(self) -> int {
        match self {
            Status::Success => 200,
            Status::Created => 201,
            Status::NoContent => 204,
            Status::InternalServerError => 500,
        }
    }

    /// The status as a number.
    pub fn code(&self) -> (code: u16)
        ensures
            code == self.number(),
    {
        match self {
            Status::Success => 200,
            Status::Created => 201,
            Status::NoContent => 204,
            Status::InternalServerError => 500,
        }
    }
}

/// The body of a reply: nothing, a line of text, or a value that is sent as
/// a structured document.
#[derive(Debug, PartialEq, Eq)]
pub enum Payload<T> {
    Empty,
    Text(String),
    Json(T),
}

/// What is answered to a request.
#[derive(Debug, PartialEq, Eq)]
pub struct Reply<T> {
    pub status: Status,
    pub body: Payload<T>,
}

/// The text of a failure: what was tried, a colon, and the error in words.
pub open spec fn failure_text(context: Seq<char>, error: RepoError) -> Seq<char> {
    context + ": "@ + error.description()
}

/// The reply is the failure of `context` with `error`: a server-side
/// failure, whatever the error, that carries the error in words.
pub open spec fn is_failure<T>(reply: Reply<T>, context: Seq<char>, error: RepoError) -> bool {
    &&& reply.status == Status::InternalServerError
    &&& reply.body matches Payload::Text(text)
    &&& text@ == failure_text(context, error)
}

/// The reply is the one that `finish` gives for the outcome.
pub open spec fn finishes<T>(
    reply: Reply<()>,
    success: Status,
    outcome: Result<T, RepoError>,
    context: Seq<char>,
) -> bool {
    match outcome {
        Ok(_) => reply == (Reply::<()> { status: success, body: Payload::Empty }),
        Err(error) => is_failure(reply, context, error),
    }
}

/// The reply is the one that `json` gives for the outcome.
pub open spec fn carries<T>(reply: Reply<T>, outcome: Result<T, RepoError>, context: Seq<char>) -> bool {
    match outcome {
        Ok(value) => reply == (Reply::<T> { status: Status::Success, body: Payload::Json(value) }),
        Err(error) => is_failure(reply, context, error),
    }
}

/// The reply to a request that failed.
pub fn failure<T>(context: &str, error: RepoError) -> (reply: Reply<T>)
    ensures
        is_failure(reply, context@, error),
{
    let described = error.describe();
    let text = context.to_owned().concat(": ").concat(described.as_str());
    Reply { status: Status::InternalServerError, body: Payload::Text(text) }
}

/// The reply to a request whose answer has no body: `success` where the
/// operation went through, whatever it gave, and the failure where it did
/// not.
pub fn finish<T>(success: Status, outcome: Result<T, RepoError>, context: &str) -> (reply: Reply<()>)
    ensures
        finishes(reply, success, outcome, context@),
{
    match outcome {
        Ok(_) => Reply { status: success, body: Payload::Empty },
        Err(error) => failure(context, error),
    }
}

/// The reply to a request that asks for a value: the value where the
/// operation gave one, and the failure where it did not.
pub fn json<T>(outcome: Result<T, RepoError>, context: &str) -> (reply: Reply<T>)
    ensures
        carries(reply, outcome, context@),
{
    match outcome {
        Ok(value) => Reply { status: Status::Success, body: Payload::Json(value) },
        Err(error) => failure(context, error),
    }
}

/// The method of a request.
#[derive(Debug, Clone, Copy, PartialEq, Eq, Structural)]
pub enum Method {
    Get,
    Post,
    Put,
    Delete,
}

/// The operations that the transport offers, one for each handler.
#[derive(Debug, Clone, Copy, PartialEq, Eq, Structural)]
pub enum Endpoint {
    CreateBook,
    GetBooks,
    GetBook,
    UpdateBook,
    DeleteBook,
    GetBooksByLibraryId,
    CreateLibrary,
    GetLibraries,
    GetLibrary,
    UpdateLibrary,
    DeleteLibrary,
    CreateMember,
    GetMembers,
    GetMember,
    UpdateMember,
    DeleteMember,
    GetMembersByLibraryId,
    BorrowBook,
    ReturnBook,
    GetBorrowedBooks,
}

/// One line of the routing table: requests with this method for a path of
/// this pattern go to this handler. A part of the pattern in braces stands
/// for a value of the path.
#[derive(Debug, Clone, Copy, PartialEq, Eq)]
pub struct Route {
    pub method: Method,
    pub path: &'static str,
    pub endpoint: Endpoint,
}

/// What a `Route` is to a contract.
pub struct RouteRow {
    pub method: Method,
    pub path: Seq<char>,
    pub endpoint: Endpoint,
}

impl View for Route {
    type V = RouteRow;

    open spec fn view(&self) -> RouteRow {
        RouteRow { method: self.method, path: self.path@, endpoint: self.endpoint }
    }
}

/// The rows of a routing table.
pub open spec fn route_rows(routes: Seq<Route>) -> Seq<RouteRow> {
    routes.map_values(|r: Route| r@)
}

} // verus!
