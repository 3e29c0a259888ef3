//! The error taxonomy translation: every backend error kind maps to exactly
//! one HTTP status and body shape, shared by all resource handlers. The
//! deliberate convention that `NotFound` is reported as 204 No Content with
//! an empty JSON body is part of the external contract and preserved here.

use vstd::prelude::*;
use vstd::string::StringExecFns;

use crate::message_bus::BusError;
use crate::message_bus::Child;
use crate::message_bus::Nexus;
use crate::message_bus::Node;
use crate::message_bus::Pool;
use crate::message_bus::Replica;
use crate::message_bus::Volume;

verus! {

/// The JSON value carried by an HTTP response body, before serialization.
pub enum JsonBody {
    /// The empty JSON value, used for deletions and for `NotFound`.
    Empty,
    /// A structured error object.
    Error {
        /// Error kind name.
        error: String,
        /// Human-readable message.
        message: String,
    },
    /// A single node.
    Node(Node),
    /// A collection of nodes.
    Nodes(Vec<Node>),
    /// A single pool.
    Pool(Pool),
    /// A collection of pools.
    Pools(Vec<Pool>),
    /// A single replica.
    Replica(Replica),
    /// A collection of replicas.
    Replicas(Vec<Replica>),
    /// A single nexus.
    Nexus(Nexus),
    /// A collection of nexuses.
    Nexuses(Vec<Nexus>),
    /// A single nexus child.
    Child(Child),
    /// A collection of nexus children.
    Children(Vec<Child>),
    /// A single volume.
    Volume(Volume),
    /// A collection of volumes.
    Volumes(Vec<Volume>),
    /// The URI a nexus was shared over.
    ShareUri(String),
}

/// An HTTP response as the gateway's logic determines it: a status code and
/// the JSON value to serialize as the body.
pub struct RestResponse {
    /// HTTP status code.
    pub status: u16,
    /// JSON body.
    pub body: JsonBody,
}

/// The human-readable text that describes a bus error kind: the kind name
/// for the simple kinds, the full causal chain text for a wrapped source
/// error.
pub open spec fn bus_error_text(kind: BusError) -> Seq<char> {
    match kind {
        BusError::NotFound => "NotFound"@,
        BusError::NotUnique => "NotUnique"@,
        BusError::MessageBus { source: _, message } => message@,
    }
}

/// The HTTP status a bus error kind maps to: `NotFound` is deliberately
/// reported as 204 No Content; the remaining kinds are server errors.
pub open spec fn error_status(kind: BusError) -> u16 {
    match kind {
        BusError::NotFound => 204u16,
        BusError::NotUnique => 500u16,
        BusError::MessageBus { .. } => 500u16,
    }
}

/// The one (status, body shape) pair a bus error kind maps to: 204 with the
/// empty JSON value for `NotFound`; 500 with a `{error, message}` object
/// naming the kind for `NotUnique`; 500 with a `{error, message}` object
/// carrying the source kind and the full causal chain for a bus failure.
pub open spec fn is_error_response(kind: BusError, r: RestResponse) -> bool {
    r.status == error_status(kind) && match kind {
        BusError::NotFound => r.body is Empty,
        BusError::NotUnique => r.body matches JsonBody::Error { error, message }
            && error@ == "NotUnique"@
            && message@ == bus_error_text(kind),
        BusError::MessageBus { source, message } => r.body matches JsonBody::Error {
            error: e,
            message: m,
        } && e@ == source@ && m@ == message@,
    }
}

/// The one (status, body shape) pair an addressing error maps to: an
/// unsupported filter variant is a caller error, answered 400 with an
/// `{error, message}` object naming `InvalidFilter` — never the backend
/// `NotFound` mapping, and always before any backend call.
pub open spec fn is_invalid_filter_response(message: Seq<char>, r: RestResponse) -> bool {
    r.status == 400 && (r.body matches JsonBody::Error { error, message: m } && error@
        == "InvalidFilter"@ && m@ == message)
}

/// Translates an addressing error to its client-error response.
pub fn invalid_filter_response(message: &str) -> (r: RestResponse)
    ensures
        is_invalid_filter_response(message@, r),
{
    RestResponse {
        status: 400,
        body: JsonBody::Error {
            error: String::from_str("InvalidFilter"),
            message: String::from_str(message),
        },
    }
}

/// A backend error as surfaced over HTTP: the bus error kind together with
/// its human-readable description.
pub struct RestError {
    /// The bus error kind.
    pub kind: BusError,
    /// Human-readable description of the kind.
    pub message: String,
}

impl RestError {
    /// Wraps a bus error kind, recording its description.
    pub fn from_bus(kind: BusError) -> (r: RestError)
        ensures
            r.kind == kind,
            r.message@ == bus_error_text(kind),
    {
        let message = match &kind {
            BusError::NotFound => String::from_str("NotFound"),
            BusError::NotUnique => String::from_str("NotUnique"),
            BusError::MessageBus { source: _, message } => message.clone(),
        };
        RestError { kind, message }
    }

    /// Translates this error to its one (status, body shape) pair.
    pub fn into_response(self) -> (r: RestResponse)
        requires
            self.message@ == bus_error_text(self.kind),
        ensures
            is_error_response(self.kind, r),
    {
        match self.kind {
            BusError::NotFound => RestResponse { status: 204, body: JsonBody::Empty },
            BusError::NotUnique => RestResponse {
                status: 500,
                body: JsonBody::Error { error: String::from_str("NotUnique"), message: self.message },
            },
            BusError::MessageBus { source, message } => RestResponse {
                status: 500,
                body: JsonBody::Error { error: source, message },
            },
        }
    }
}

/// Translates a bus error straight to its HTTP response.
pub fn error_response(kind: BusError) -> (r: RestResponse)
    ensures
        is_error_response(kind, r),
{
    RestError::from_bus(kind).into_response()
}

/// The response to an operation that succeeds with no payload (a deletion):
/// 200 with the empty JSON value, or the error translation.
pub fn unit_response(result: Result<(), BusError>) -> (r: RestResponse)
    ensures
        match result {
            Ok(_) => r.status == 200 && r.body is Empty,
            Err(kind) => is_error_response(kind, r),
        },
{
    match result {
        Ok(_) => RestResponse { status: 200, body: JsonBody::Empty },
        Err(kind) => error_response(kind),
    }
}

/// Law: the error mapping is a function of the kind alone. Two responses
/// that surface the same bus error agree on the status and on the body,
/// whatever operation raised the error.
pub proof fn lemma_error_mapping_unique(kind: BusError, r1: RestResponse, r2: RestResponse)
    requires
        is_error_response(kind, r1),
        is_error_response(kind, r2),
    ensures
        r1.status == r2.status,
        r1.body is Empty <==> r2.body is Empty,
        r1.body matches JsonBody::Error { error: e1, message: m1 } ==> (r2.body
            matches JsonBody::Error { error: e2, message: m2 } && e1@ == e2@ && m1@ == m2@),
{
}

/// Law: `NotFound` always yields 204 with the empty JSON body, regardless
/// of the originating operation.
pub proof fn lemma_not_found_is_no_content(kind: BusError, r: RestResponse)
    requires
        kind is NotFound,
        is_error_response(kind, r),
    ensures
        r.status == 204,
        r.body is Empty,
{
}

} // verus!
