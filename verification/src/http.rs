//! Requests and responses as plain values. The web server turns what it
//! receives into a `Request` and sends what a handler answers.

use vstd::prelude::*;
use crate::auth::AuthenticatedAgent;
use crate::error::{AuthenticationError, StringError};
use crate::handler::Message;
use std::sync::Arc;

verus! {

/// Status of a request that was served.
pub const STATUS_OK: u16 = 200;

/// Status of a request that the gateway could not read.
pub const STATUS_BAD_REQUEST: u16 = 400;

/// Status of a request without a valid credential.
pub const STATUS_UNAUTHORIZED: u16 = 401;

/// Status of a request for a route that nothing serves.
pub const STATUS_NOT_FOUND: u16 = 404;

/// Status of a request whose method the endpoint does not take.
pub const STATUS_METHOD_NOT_ALLOWED: u16 = 405;

/// The method of a request.
#[derive(Debug, Clone, PartialEq, Eq)]
pub enum Method {
    Options,
    Get,
    Post,
    Put,
    Delete,
    Head,
    Trace,
    Connect,
    Patch,
    Extension(String),
}

/// What a handler reads of a request.
#[derive(Debug, PartialEq)]
pub struct Request {
    pub method: Method,
    /// The path of the URL, its segments joined by `/`.
    pub path: String,
    /// The token of the `Authorization: Bearer` header, if the request has one.
    pub bearer: Option<String>,
    /// The body, if it could be read as an array of messages.
    pub body: Option<Vec<Message>>,
}

/// One item of the fan-in channel: a message and the identity it came in under.
pub type Item = (Arc<AuthenticatedAgent>, Message);

/// The answer to a request, and the items that the server sends to the
/// fan-in channel on its account, in this order.
#[derive(Debug, PartialEq)]
pub struct Reply {
    pub status: u16,
    pub body: String,
    pub enqueue: Vec<Item>,
}

/// What went wrong with a request.
#[derive(Debug, Clone, PartialEq, Eq)]
pub enum Fault {
    Authentication(AuthenticationError),
    Message(StringError),
}

/// A request that was turned away. Nothing is sent to the channel for it.
#[derive(Debug, Clone, PartialEq, Eq)]
pub struct HttpError {
    pub status: u16,
    pub fault: Fault,
}

/// Whether a request was turned away for want of a valid credential.
pub open spec fn turned_away(result: Result<Reply, HttpError>) -> bool {
    result matches Err(e) && e.is_unauthorized()
}

impl HttpError {
    /// Whether this is the rejection of a request without a valid
    /// credential.
    pub open spec fn is_unauthorized(self) -> bool {
        self.status == STATUS_UNAUTHORIZED && self.fault == Fault::Authentication(
            AuthenticationError {  },
        )
    }

    /// Whether this is a rejection with the given status and text.
    pub open spec fn is_message(self, status: u16, text: Seq<char>) -> bool {
        &&& self.status == status
        &&& self.fault matches Fault::Message(e)
        &&& e.description@ == text
    }

    /// The rejection of a request without a valid credential.
    pub fn unauthorized() -> (e: HttpError)
        ensures
            e.is_unauthorized(),
    {
        HttpError { status: STATUS_UNAUTHORIZED, fault: Fault::Authentication(AuthenticationError {  }) }
    }

    /// A rejection with a status and a text.
    pub fn message(status: u16, text: &str) -> (e: HttpError)
        ensures
            e.is_message(status, text@),
    {
        HttpError { status, fault: Fault::Message(StringError { description: text.to_owned() }) }
    }
}

} // verus!
