//! Nexus endpoints: list/get by filter, create from the path-derived
//! address and body, share/unshare over a protocol, and the cascading
//! delete resolver that discovers the owning node when a delete is
//! addressed by nexus uuid alone.

use vstd::prelude::*;

use crate::bodies::CreateNexusBody;
use crate::message_bus::BusError;
use crate::message_bus::CreateNexus;
use crate::message_bus::DestroyNexus;
use crate::message_bus::Filter;
use crate::message_bus::Nexus;
use crate::message_bus::Protocol;
use crate::message_bus::ShareNexus;
use crate::message_bus::UnshareNexus;
use crate::rest_error::error_response;
use crate::rest_error::invalid_filter_response;
use crate::rest_error::is_error_response;
use crate::rest_error::is_invalid_filter_response;
use crate::rest_error::JsonBody;
use crate::rest_error::RestResponse;
use crate::router::route;
use crate::router::Handler;
use crate::router::Method;
use crate::router::Route;

verus! {

/// The first step of a nexus delete: either the destroy request can be
/// built directly from the path-supplied ids, or a lookup with the partial
/// filter must discover the owning node first, or the addressing is
/// rejected.
pub enum DestroyNexusStep {
    /// Fully qualified: issue this destroy request, no extra round trip.
    Destroy(DestroyNexus),
    /// Partially qualified: fetch the nexus with `filter`, then resolve.
    Lookup {
        /// The partial filter to fetch the nexus with.
        filter: Filter,
        /// The nexus uuid the delete was addressed by.
        nexus_id: String,
    },
    /// The filter is no nexus delete address: a caller error, rejected
    /// before any backend call.
    Reject,
}

/// What a nexus delete does for each addressing mode: `NodeNexus` destroys
/// directly, `Nexus` first looks the nexus up by that same partial filter,
/// and every other filter is rejected as an addressing error.
pub open spec fn destroy_nexus_plan(filter: Filter) -> DestroyNexusStep {
    match filter {
        Filter::NodeNexus(node_id, nexus_id) => DestroyNexusStep::Destroy(
            DestroyNexus { node: node_id, uuid: nexus_id },
        ),
        Filter::Nexus(nexus_id) => DestroyNexusStep::Lookup {
            filter: Filter::Nexus(nexus_id),
            nexus_id: nexus_id,
        },
        _ => DestroyNexusStep::Reject,
    }
}

/// Decides the first step of a nexus delete from its filter.
pub fn destroy_nexus(filter: Filter) -> (s: DestroyNexusStep)
    ensures
        s == destroy_nexus_plan(filter),
{
    match filter {
        Filter::NodeNexus(node_id, nexus_id) => DestroyNexusStep::Destroy(
            DestroyNexus { node: node_id, uuid: nexus_id },
        ),
        Filter::Nexus(nexus_id) => {
            let id = nexus_id.clone();
            DestroyNexusStep::Lookup { filter: Filter::Nexus(nexus_id), nexus_id: id }
        },
        _ => DestroyNexusStep::Reject,
    }
}

/// The response to a nexus delete addressed by an unsupported filter
/// variant: a client error, raised before any backend call.
pub fn destroy_nexus_rejected() -> (r: RestResponse)
    ensures
        is_invalid_filter_response("Invalid filter for nexus deletes"@, r),
{
    invalid_filter_response("Invalid filter for nexus deletes")
}

/// What resolving a partially qualified nexus delete returns: the destroy
/// request addressed by the looked-up nexus's owning node, or, when the
/// lookup failed, that same error — the destroy is never attempted.
pub open spec fn destroy_nexus_resolve(nexus_id: String, lookup: Result<Nexus, BusError>) -> Result<
    DestroyNexus,
    BusError,
> {
    match lookup {
        Ok(nexus) => Ok(DestroyNexus { node: nexus.node, uuid: nexus_id }),
        Err(e) => Err(e),
    }
}

/// Resolves a partially qualified nexus delete from the lookup's outcome.
pub fn destroy_nexus_resolved(nexus_id: String, lookup: Result<Nexus, BusError>) -> (r: Result<
    DestroyNexus,
    BusError,
>)
    ensures
        r == destroy_nexus_resolve(nexus_id, lookup),
{
    match lookup {
        Ok(nexus) => Ok(DestroyNexus { node: nexus.node, uuid: nexus_id }),
        Err(e) => Err(e),
    }
}

/// Law: cascading delete equivalence for nexuses. Deleting via
/// `Filter::Nexus` when the owning node is `node_id` resolves to exactly
/// the destroy request that `Filter::NodeNexus` builds directly; and when
/// the lookup fails, the resolver returns that error and produces no
/// destroy request.
pub proof fn lemma_destroy_nexus_cascade(node_id: String, nexus_id: String, nexus: Nexus, e: BusError)
    requires
        nexus.node == node_id,
    ensures
        destroy_nexus_plan(Filter::NodeNexus(node_id, nexus_id)) == DestroyNexusStep::Destroy(
            DestroyNexus { node: node_id, uuid: nexus_id },
        ),
        destroy_nexus_plan(Filter::Nexus(nexus_id)) matches DestroyNexusStep::Lookup {
            filter,
            nexus_id: x,
        } && filter == Filter::Nexus(nexus_id) && x == nexus_id,
        destroy_nexus_resolve(nexus_id, Ok(nexus)) == Ok::<DestroyNexus, BusError>(
            DestroyNexus { node: node_id, uuid: nexus_id },
        ),
        destroy_nexus_resolve(nexus_id, Err(e)) == Err::<DestroyNexus, BusError>(e),
{
}

/// The response to a fetched nexus collection, or the error translation.
pub fn nexuses_response(result: Result<Vec<Nexus>, BusError>) -> (r: RestResponse)
    ensures
        match result {
            Ok(nexuses) => r.status == 200 && r.body == JsonBody::Nexuses(nexuses),
            Err(e) => is_error_response(e, r),
        },
{
    match result {
        Ok(nexuses) => RestResponse { status: 200, body: JsonBody::Nexuses(nexuses) },
        Err(e) => error_response(e),
    }
}

/// The response to a fetched nexus, or the error translation.
pub fn nexus_response(result: Result<Nexus, BusError>) -> (r: RestResponse)
    ensures
        match result {
            Ok(nexus) => r.status == 200 && r.body == JsonBody::Nexus(nexus),
            Err(e) => is_error_response(e, r),
        },
{
    match result {
        Ok(nexus) => RestResponse { status: 200, body: JsonBody::Nexus(nexus) },
        Err(e) => error_response(e),
    }
}

/// The response to a share operation: the URI the nexus was shared over,
/// or the error translation.
pub fn share_response(result: Result<String, BusError>) -> (r: RestResponse)
    ensures
        match result {
            Ok(uri) => r.status == 200 && r.body == JsonBody::ShareUri(uri),
            Err(e) => is_error_response(e, r),
        },
{
    match result {
        Ok(uri) => RestResponse { status: 200, body: JsonBody::ShareUri(uri) },
        Err(e) => error_response(e),
    }
}

/// Filter for listing every nexus.
pub fn get_nexuses() -> (f: Filter)
    ensures
        f == Filter::All,
{
    Filter::All
}

/// Filter for getting one nexus by uuid.
pub fn get_nexus(nexus_id: String) -> (f: Filter)
    ensures
        f == Filter::Nexus(nexus_id),
{
    Filter::Nexus(nexus_id)
}

/// Filter for listing the nexuses of a node.
pub fn get_node_nexuses(node_id: String) -> (f: Filter)
    ensures
        f == Filter::Node(node_id),
{
    Filter::Node(node_id)
}

/// Filter for getting one nexus qualified by its node.
pub fn get_node_nexus(node_id: String, nexus_id: String) -> (f: Filter)
    ensures
        f == Filter::NodeNexus(node_id, nexus_id),
{
    Filter::NodeNexus(node_id, nexus_id)
}

/// Builds the create request for a nexus from the path-derived address and
/// the body's resource-owned attributes.
pub fn put_node_nexus(node_id: String, nexus_id: String, body: &CreateNexusBody) -> (r: CreateNexus)
    ensures
        r.node == node_id,
        r.uuid == nexus_id,
        r.size == body.size,
        r.children@ == body.children@,
{
    body.bus_request(node_id, nexus_id)
}

/// First delete step for a nexus fully qualified by node and uuid.
pub fn del_node_nexus(node_id: String, nexus_id: String) -> (s: DestroyNexusStep)
    ensures
        s == destroy_nexus_plan(Filter::NodeNexus(node_id, nexus_id)),
{
    destroy_nexus(Filter::NodeNexus(node_id, nexus_id))
}

/// First delete step for a nexus addressed by uuid alone.
pub fn del_nexus(nexus_id: String) -> (s: DestroyNexusStep)
    ensures
        s == destroy_nexus_plan(Filter::Nexus(nexus_id)),
{
    destroy_nexus(Filter::Nexus(nexus_id))
}

/// Builds the share request for a nexus: no encryption key, the protocol
/// taken from the path.
pub fn put_node_nexus_share(node_id: String, nexus_id: String, protocol: Protocol) -> (s: ShareNexus)
    ensures
        s.node == node_id,
        s.uuid == nexus_id,
        s.key is None,
        s.protocol == protocol,
{
    ShareNexus { node: node_id, uuid: nexus_id, key: None, protocol }
}

/// Builds the unshare request for a nexus.
pub fn del_node_nexus_share(node_id: String, nexus_id: String) -> (u: UnshareNexus)
    ensures
        u.node == node_id,
        u.uuid == nexus_id,
{
    UnshareNexus { node: node_id, uuid: nexus_id }
}

/// The route table of the nexus endpoints.
pub fn factory() -> (r: Vec<Route>)
    ensures
        r@.len() == 9,
        r@[0].method == Method::Get && r@[0].path@ == "/v0/nexuses"@ && r@[0].handler
            == Handler::GetNexuses,
        r@[1].method == Method::Get && r@[1].path@ == "/v0/nexuses/{nexus_id}"@ && r@[1].handler
            == Handler::GetNexus,
        r@[2].method == Method::Get && r@[2].path@ == "/v0/nodes/{id}/nexuses"@ && r@[2].handler
            == Handler::GetNodeNexuses,
        r@[3].method == Method::Get && r@[3].path@ == "/v0/nodes/{node_id}/nexuses/{nexus_id}"@
            && r@[3].handler == Handler::GetNodeNexus,
        r@[4].method == Method::Put && r@[4].path@ == "/v0/nodes/{node_id}/nexuses/{nexus_id}"@
            && r@[4].handler == Handler::PutNodeNexus,
        r@[5].method == Method::Delete && r@[5].path@ == "/v0/nodes/{node_id}/nexuses/{nexus_id}"@
            && r@[5].handler == Handler::DelNodeNexus,
        r@[6].method == Method::Delete && r@[6].path@ == "/v0/nexuses/{nexus_id}"@ && r@[6].handler
            == Handler::DelNexus,
        r@[7].method == Method::Put && r@[7].path@
            == "/v0/nodes/{node_id}/nexuses/{nexus_id}/share/{protocol}"@
            && r@[7].handler == Handler::PutNodeNexusShare,
        r@[8].method == Method::Delete && r@[8].path@
            == "/v0/nodes/{node_id}/nexuses/{nexus_id}/share"@
            && r@[8].handler == Handler::DelNodeNexusShare,
{
    let mut r: Vec<Route> = Vec::new();
    r.push(route(Method::Get, "/v0/nexuses", Handler::GetNexuses));
    r.push(route(Method::Get, "/v0/nexuses/{nexus_id}", Handler::GetNexus));
    r.push(route(Method::Get, "/v0/nodes/{id}/nexuses", Handler::GetNodeNexuses));
    r.push(route(Method::Get, "/v0/nodes/{node_id}/nexuses/{nexus_id}", Handler::GetNodeNexus));
    r.push(route(Method::Put, "/v0/nodes/{node_id}/nexuses/{nexus_id}", Handler::PutNodeNexus));
    r.push(route(Method::Delete, "/v0/nodes/{node_id}/nexuses/{nexus_id}", Handler::DelNodeNexus));
    r.push(route(Method::Delete, "/v0/nexuses/{nexus_id}", Handler::DelNexus));
    r.push(route(Method::Put, "/v0/nodes/{node_id}/nexuses/{nexus_id}/share/{protocol}", Handler::PutNodeNexusShare));
    r.push(route(Method::Delete, "/v0/nodes/{node_id}/nexuses/{nexus_id}/share", Handler::DelNodeNexusShare));
    r
}

} // verus!
