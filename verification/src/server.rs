//! What the presentation server answers.
//!
//! The server itself listens and persists; the functions here decide, from
//! what a request carried and from how persisting went, how the store
//! changes and which status the request is answered with.

use crate::json::{as_str, json_of, member, member_of, parse, parsed, text_of, Json};
use crate::state::{acknowledge, acknowledged_by, State, Timestamp};
use vstd::prelude::*;

verus! {

/// The answer to a request, as far as its status goes.
#[derive(Clone, Copy, Debug, PartialEq, Eq)]
pub enum Reply {
    /// The request was carried out.
    Done,
    /// The request's body was not understood.
    BadRequest,
    /// There is nothing to show yet.
    NotFound,
    /// The store could not be read or written.
    InternalError,
}

/// The HTTP status code of a reply.
pub open spec fn code_of(reply: Reply) -> u16 {
    match reply {
        Reply::Done => 200,
        Reply::BadRequest => 400,
        Reply::NotFound => 404,
        Reply::InternalError => 500,
    }
}

impl Reply {
    /// The HTTP status code of the reply.
    pub fn status_code(&self) -> (code: u16)
        ensures
            code == code_of(*self),
    {
        match self {
            Reply::Done => 200,
            Reply::BadRequest => 400,
            Reply::NotFound => 404,
            Reply::InternalError => 500,
        }
    }
}

/// The issue that the document of an acknowledgement request names: the
/// string under `issue` in an object.
pub open spec fn issue_named(document: Json) -> Option<Seq<char>> {
    match member_of(document, "issue"@) {
        Some(inner) => text_of(inner),
        None => None,
    }
}

/// The issue that the body of an acknowledgement request names; `None` for
/// a body that is not a JSON object with a string under `issue`.
pub open spec fn request_of(body: Seq<char>) -> Option<Seq<char>> {
    match parsed(body) {
        Some(document) => issue_named(document),
        None => None,
    }
}

/// The issue that a parsed acknowledgement request names.
pub fn issue_in(document: &serde_json::Value) -> (issue: Option<String>)
    ensures
        match issue {
            Some(named) => issue_named(json_of(*document)) == Some(named@),
            None => issue_named(json_of(*document)) is None,
        },
{
    match member(document, "issue") {
        Some(inner) => match as_str(inner) {
            Some(text) => Some(text.to_string()),
            None => None,
        },
        None => None,
    }
}

/// Reads the body of an acknowledgement request.
pub fn read_seen_request(body: &str) -> (issue: Option<String>)
    ensures
        match issue {
            Some(named) => request_of(body@) == Some(named@),
            None => request_of(body@) is None,
        },
{
    match parse(body) {
        Ok(document) => issue_in(&document),
        Err(_) => None,
    }
}

/// Answers a request for the page: the page where one was rendered, and
/// not found where none was yet.
pub fn index(document: Option<String>) -> (answer: (Reply, String))
    ensures
        match document {
            Some(page) => answer.0 == Reply::Done && answer.1@ == page@,
            None => answer.0 == Reply::NotFound && answer.1@ == Seq::<char>::empty(),
        },
{
    match document {
        Some(page) => (Reply::Done, page),
        None => (Reply::NotFound, String::new()),
    }
}

/// Carries out an acknowledgement request at `now`. A body that names an
/// issue acknowledges it, whether or not a poll has reported it; the store
/// is then to be persisted. A malformed body changes nothing and is
/// answered as a bad request.
pub fn mark_seen(store: State, body: &str, now: Timestamp) -> (outcome: (Reply, State))
    ensures
        match request_of(body@) {
            Some(issue) => outcome.0 == Reply::Done && outcome.1@ == acknowledged_by(
                store@,
                issue,
                now,
            ),
            None => outcome.0 == Reply::BadRequest && outcome.1@ == store@,
        },
{
    match read_seen_request(body) {
        Some(issue) => (Reply::Done, acknowledge(store, issue, now)),
        None => (Reply::BadRequest, store),
    }
}

/// The answer to a request whose work needed the store: the work's own
/// answer where the store could be read and written, else an internal error.
pub fn after_persisting(reply: Reply, persisted: bool) -> (answer: Reply)
    ensures
        answer == if persisted {
            reply
        } else {
            Reply::InternalError
        },
{
    if persisted {
        reply
    } else {
        Reply::InternalError
    }
}

/// Answers a request for the state: fine where the store could be read,
/// else an internal error.
pub fn get_state(loaded: bool) -> (answer: Reply)
    ensures
        answer == if loaded {
            Reply::Done
        } else {
            Reply::InternalError
        },
{
    after_persisting(Reply::Done, loaded)
}

} // verus!
