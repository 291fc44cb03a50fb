//! The readings that agents submit, and the HTTP endpoint that accepts them.

use vstd::prelude::*;
use crate::auth::AuthenticatedAgent;
use crate::http::{
    HttpError, Item, Method, Reply, STATUS_BAD_REQUEST, STATUS_METHOD_NOT_ALLOWED, STATUS_OK,
};
use crate::server::RouteProvider;
use std::sync::Arc;

verus! {

/// One unit of producer input: who measured, what, and when.
#[derive(Debug, PartialEq)]
pub struct Message {
    pub meta: MetaData,
    pub data: Vec<Measurement>,
    /// Seconds or milliseconds since the epoch, as the agent sent them.
    pub timestamp: i64,
}

/// A measured number, held as the 64 bits of its IEEE 754 double-precision
/// form. The gateway moves numbers and never computes with them.
#[derive(Debug, Clone, Copy, PartialEq, Eq, Structural)]
pub struct Number {
    pub bits: u64,
}

/// One reading of one sensor.
#[derive(Debug, PartialEq)]
#[allow(inconsistent_fields)]
pub enum Measurement {
    Simple { name: String, value: Number, unit: String },
    Tuple { name: String, value: Vec<Number>, unit: String },
    Geometry { name: String, value: serde_json::Value, unit: String },
    Binary { name: String, value: Vec<u8>, unit: String },
}

/// What a message says of the device that produced it.
#[derive(Debug, Clone, PartialEq, Eq)]
pub struct MetaData {
    pub name: String,
    /// The role the device declares for itself; only the message bus reads it.
    pub role: Option<String>,
}

impl Measurement {
    /// The sensor's name, present in every variant.
    pub open spec fn name(self) -> Seq<char> {
        match self {
            Measurement::Simple { name, .. } => name@,
            Measurement::Tuple { name, .. } => name@,
            Measurement::Geometry { name, .. } => name@,
            Measurement::Binary { name, .. } => name@,
        }
    }

    /// The unit, present in every variant.
    pub open spec fn unit(self) -> Seq<char> {
        match self {
            Measurement::Simple { unit, .. } => unit@,
            Measurement::Tuple { unit, .. } => unit@,
            Measurement::Geometry { unit, .. } => unit@,
            Measurement::Binary { unit, .. } => unit@,
        }
    }

    /// The raw bytes that this measurement hands to the blob store: those of
    /// a binary measurement, and none of any other.
    pub fn blob(&self) -> (bytes: Option<&Vec<u8>>)
        ensures
            match *self {
                Measurement::Binary { value, .. } => bytes == Some(&value),
                _ => bytes is None,
            },
    {
        match self {
            Measurement::Binary { value, .. } => Some(value),
            _ => None,
        }
    }
}

/// Another handle to a shared identity, by `Arc::clone`: it points to the
/// same identity and copies nothing.
#[verifier::external_body]
fn share(agent: &Arc<AuthenticatedAgent>) -> (shared: Arc<AuthenticatedAgent>)
    ensures
        shared == *agent,
{
    Arc::clone(agent)
}

/// The endpoint that takes batches of readings.
pub struct SensorDataHandler {
    route: String,
}

/// Whether the endpoint takes requests of this method.
pub open spec fn accepts(method: Method) -> bool {
    method is Put || method is Post
}

/// Whether `result` is the endpoint's answer to a request of an
/// authenticated agent.
///
/// A body that was read is answered with `["Done"]`, and each of its
/// messages goes to the channel under the agent's identity, in the order of
/// the body. A body that could not be read is a bad request, and any method
/// but `PUT` and `POST` is not allowed; nothing goes to the channel then.
pub open spec fn handles(
    method: Method,
    body: Option<Vec<Message>>,
    agent: AuthenticatedAgent,
    result: Result<Reply, HttpError>,
) -> bool {
    if accepts(method) {
        match body {
            Some(content) => {
                &&& result matches Ok(reply)
                &&& reply.status == STATUS_OK
                &&& reply.body@ == "[\"Done\"]"@
                &&& reply.enqueue@.len() == content@.len()
                &&& forall|i: int|
                    0 <= i < content@.len() ==> *(#[trigger] reply.enqueue@[i]).0 == agent
                        && reply.enqueue@[i].1 == content@[i]
            },
            None => result matches Err(e) && e.is_message(STATUS_BAD_REQUEST, "invalid body"@),
        }
    } else {
        result matches Err(e) && e.is_message(STATUS_METHOD_NOT_ALLOWED, "Error"@)
    }
}

impl SensorDataHandler {
    pub fn new(route: &str) -> (handler: SensorDataHandler)
        ensures
            handler.route() == route@,
    {
        SensorDataHandler { route: route.to_owned() }
    }

    /// Handles a request that passed the middleware as `agent`.
    pub fn handle(&self, method: &Method, body: Option<Vec<Message>>, agent: AuthenticatedAgent) -> (result:
        Result<Reply, HttpError>)
        ensures
            handles(*method, body, agent, result),
    {
        match method {
            Method::Put | Method::Post => match body {
                Some(content) => {
                    let agent = Arc::new(agent);
                    let mut enqueue: Vec<Item> = Vec::new();
                    for message in it: content.into_iter()
                        invariant
                            it.seq() == content@,
                            enqueue@.len() == it.index(),
                            forall|i: int|
                                0 <= i < enqueue@.len() ==> *(#[trigger] enqueue@[i]).0 == *agent
                                    && enqueue@[i].1 == content@[i],
                    {
                        enqueue.push((share(&agent), message));
                    }
                    Ok(Reply { status: STATUS_OK, body: "[\"Done\"]".to_owned(), enqueue })
                },
                None => Err(HttpError::message(STATUS_BAD_REQUEST, "invalid body")),
            },
            _ => Err(HttpError::message(STATUS_METHOD_NOT_ALLOWED, "Error")),
        }
    }
}

impl RouteProvider for SensorDataHandler {
    closed spec fn route(&self) -> Seq<char> {
        self.route@
    }

    fn get_route(&self) -> (route: &str) {
        self.route.as_str()
    }
}

} // verus!
