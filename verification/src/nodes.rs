//! Node endpoints: list all nodes, get one node by id.

use vstd::prelude::*;

use crate::message_bus::BusError;
use crate::message_bus::Node;
use crate::rest_error::error_response;
use crate::rest_error::is_error_response;
use crate::rest_error::JsonBody;
use crate::rest_error::RestResponse;
use crate::router::route;
use crate::router::Handler;
use crate::router::Method;
use crate::router::Route;

verus! {

/// The response to the fetched node collection, or the error translation.
pub fn nodes_response(result: Result<Vec<Node>, BusError>) -> (r: RestResponse)
    ensures
        match result {
            Ok(nodes) => r.status == 200 && r.body == JsonBody::Nodes(nodes),
            Err(e) => is_error_response(e, r),
        },
{
    match result {
        Ok(nodes) => RestResponse { status: 200, body: JsonBody::Nodes(nodes) },
        Err(e) => error_response(e),
    }
}

/// The response to a fetched node, or the error translation.
pub fn node_response(result: Result<Node, BusError>) -> (r: RestResponse)
    ensures
        match result {
            Ok(node) => r.status == 200 && r.body == JsonBody::Node(node),
            Err(e) => is_error_response(e, r),
        },
{
    match result {
        Ok(node) => RestResponse { status: 200, body: JsonBody::Node(node) },
        Err(e) => error_response(e),
    }
}

/// The route table of the node endpoints.
pub fn factory() -> (r: Vec<Route>)
    ensures
        r@.len() == 2,
        r@[0].method == Method::Get && r@[0].path@ == "/v0/nodes/{id}"@ && r@[0].handler
            == Handler::GetNode,
        r@[1].method == Method::Get && r@[1].path@ == "/v0/nodes"@ && r@[1].handler
            == Handler::GetNodes,
{
    let mut r: Vec<Route> = Vec::new();
    r.push(route(Method::Get, "/v0/nodes/{id}", Handler::GetNode));
    r.push(route(Method::Get, "/v0/nodes", Handler::GetNodes));
    r
}

} // verus!
