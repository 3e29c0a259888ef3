//! Pool endpoints: list/get by filter, create from the path-derived address
//! and body, and the cascading delete resolver that discovers the owning
//! node when a delete is addressed by pool id alone.

use vstd::prelude::*;

use crate::bodies::CreatePoolBody;
use crate::message_bus::BusError;
use crate::message_bus::CreatePool;
use crate::message_bus::DestroyPool;
use crate::message_bus::Filter;
use crate::message_bus::Pool;
use crate::rest_error::error_response;
use crate::rest_error::invalid_filter_response;
use crate::rest_error::is_error_response;
use crate::rest_error::is_invalid_filter_response;
use crate::rest_error::JsonBody;
use crate::rest_error::RestResponse;
use crate::router::route;
use crate::router::Handler;
use crate::router::Method;
use crate::router::Route;

verus! {

/// The first step of a pool delete: either the destroy request can be built
/// directly from the path-supplied ids, or a lookup with the partial filter
/// must discover the owning node first, or the addressing is rejected.
pub enum DestroyPoolStep {
    /// Fully qualified: issue this destroy request, no extra round trip.
    Destroy(DestroyPool),
    /// Partially qualified: fetch the pool with `filter`, then resolve.
    Lookup {
        /// The partial filter to fetch the pool with.
        filter: Filter,
        /// The pool id the delete was addressed by.
        pool_id: String,
    },
    /// The filter is no pool delete address: a caller error, rejected
    /// before any backend call.
    Reject,
}

/// What a pool delete does for each addressing mode: `NodePool` destroys
/// directly, `Pool` first looks the pool up by that same partial filter,
/// and every other filter is rejected as an addressing error.
pub open spec fn destroy_pool_plan(filter: Filter) -> DestroyPoolStep {
    match filter {
        Filter::NodePool(node_id, pool_id) => DestroyPoolStep::Destroy(
            DestroyPool { node: node_id, name: pool_id },
        ),
        Filter::Pool(pool_id) => DestroyPoolStep::Lookup {
            filter: Filter::Pool(pool_id),
            pool_id: pool_id,
        },
        _ => DestroyPoolStep::Reject,
    }
}

/// Decides the first step of a pool delete from its filter.
pub fn destroy_pool(filter: Filter) -> (s: DestroyPoolStep)
    ensures
        s == destroy_pool_plan(filter),
{
    match filter {
        Filter::NodePool(node_id, pool_id) => DestroyPoolStep::Destroy(
            DestroyPool { node: node_id, name: pool_id },
        ),
        Filter::Pool(pool_id) => {
            let id = pool_id.clone();
            DestroyPoolStep::Lookup { filter: Filter::Pool(pool_id), pool_id: id }
        },
        _ => DestroyPoolStep::Reject,
    }
}

/// The response to a pool delete addressed by an unsupported filter
/// variant: a client error, raised before any backend call.
pub fn destroy_pool_rejected() -> (r: RestResponse)
    ensures
        is_invalid_filter_response("Invalid filter for pool deletes"@, r),
{
    invalid_filter_response("Invalid filter for pool deletes")
}

/// What resolving a partially qualified pool delete returns: the destroy
/// request addressed by the looked-up pool's owning node, or, when the
/// lookup failed, that same error — the destroy is never attempted.
pub open spec fn destroy_pool_resolve(pool_id: String, lookup: Result<Pool, BusError>) -> Result<
    DestroyPool,
    BusError,
> {
    match lookup {
        Ok(pool) => Ok(DestroyPool { node: pool.node, name: pool_id }),
        Err(e) => Err(e),
    }
}

/// Resolves a partially qualified pool delete from the lookup's outcome.
pub fn destroy_pool_resolved(pool_id: String, lookup: Result<Pool, BusError>) -> (r: Result<
    DestroyPool,
    BusError,
>)
    ensures
        r == destroy_pool_resolve(pool_id, lookup),
{
    match lookup {
        Ok(pool) => Ok(DestroyPool { node: pool.node, name: pool_id }),
        Err(e) => Err(e),
    }
}

/// Law: cascading delete equivalence. Deleting a pool via `Filter::Pool`
/// when its owning node is `node_id` resolves to exactly the destroy
/// request that `Filter::NodePool` builds directly; and when the lookup
/// fails, the resolver returns that error and produces no destroy request.
pub proof fn lemma_destroy_pool_cascade(node_id: String, pool_id: String, pool: Pool, e: BusError)
    requires
        pool.node == node_id,
    ensures
        destroy_pool_plan(Filter::NodePool(node_id, pool_id)) == DestroyPoolStep::Destroy(
            DestroyPool { node: node_id, name: pool_id },
        ),
        destroy_pool_plan(Filter::Pool(pool_id)) matches DestroyPoolStep::Lookup { filter, pool_id: p }
            && filter == Filter::Pool(pool_id) && p == pool_id,
        destroy_pool_resolve(pool_id, Ok(pool)) == Ok::<DestroyPool, BusError>(
            DestroyPool { node: node_id, name: pool_id },
        ),
        destroy_pool_resolve(pool_id, Err(e)) == Err::<DestroyPool, BusError>(e),
{
}

/// The response to a fetched pool collection, or the error translation.
pub fn pools_response(result: Result<Vec<Pool>, BusError>) -> (r: RestResponse)
    ensures
        match result {
            Ok(pools) => r.status == 200 && r.body == JsonBody::Pools(pools),
            Err(e) => is_error_response(e, r),
        },
{
    match result {
        Ok(pools) => RestResponse { status: 200, body: JsonBody::Pools(pools) },
        Err(e) => error_response(e),
    }
}

/// The response to a fetched pool, or the error translation.
pub fn pool_response(result: Result<Pool, BusError>) -> (r: RestResponse)
    ensures
        match result {
            Ok(pool) => r.status == 200 && r.body == JsonBody::Pool(pool),
            Err(e) => is_error_response(e, r),
        },
{
    match result {
        Ok(pool) => RestResponse { status: 200, body: JsonBody::Pool(pool) },
        Err(e) => error_response(e),
    }
}

/// Filter for listing every pool.
pub fn get_pools() -> (f: Filter)
    ensures
        f == Filter::All,
{
    Filter::All
}

/// Filter for getting one pool by id.
pub fn get_pool(pool_id: String) -> (f: Filter)
    ensures
        f == Filter::Pool(pool_id),
{
    Filter::Pool(pool_id)
}

/// Filter for listing the pools of a node.
pub fn get_node_pools(node_id: String) -> (f: Filter)
    ensures
        f == Filter::Node(node_id),
{
    Filter::Node(node_id)
}

/// Filter for getting one pool qualified by its node.
pub fn get_node_pool(node_id: String, pool_id: String) -> (f: Filter)
    ensures
        f == Filter::NodePool(node_id, pool_id),
{
    Filter::NodePool(node_id, pool_id)
}

/// Builds the create request for a pool from the path-derived address and
/// the body's resource-owned attributes.
pub fn put_node_pool(node_id: String, pool_id: String, body: &CreatePoolBody) -> (r: CreatePool)
    ensures
        r.node == node_id,
        r.name == pool_id,
        r.disks@ == body.disks@,
{
    body.bus_request(node_id, pool_id)
}

/// First delete step for a pool fully qualified by node and pool id.
pub fn del_node_pool(node_id: String, pool_id: String) -> (s: DestroyPoolStep)
    ensures
        s == destroy_pool_plan(Filter::NodePool(node_id, pool_id)),
{
    destroy_pool(Filter::NodePool(node_id, pool_id))
}

/// First delete step for a pool addressed by pool id alone.
pub fn del_pool(pool_id: String) -> (s: DestroyPoolStep)
    ensures
        s == destroy_pool_plan(Filter::Pool(pool_id)),
{
    destroy_pool(Filter::Pool(pool_id))
}

/// The route table of the pool endpoints.
pub fn factory() -> (r: Vec<Route>)
    ensures
        r@.len() == 7,
        r@[0].method == Method::Get && r@[0].path@ == "/v0/pools"@ && r@[0].handler
            == Handler::GetPools,
        r@[1].method == Method::Get && r@[1].path@ == "/v0/pools/{id}"@ && r@[1].handler
            == Handler::GetPool,
        r@[2].method == Method::Get && r@[2].path@ == "/v0/nodes/{id}/pools"@ && r@[2].handler
            == Handler::GetNodePools,
        r@[3].method == Method::Get && r@[3].path@ == "/v0/nodes/{node_id}/pools/{pool_id}"@
            && r@[3].handler == Handler::GetNodePool,
        r@[4].method == Method::Put && r@[4].path@ == "/v0/nodes/{node_id}/pools/{pool_id}"@
            && r@[4].handler == Handler::PutNodePool,
        r@[5].method == Method::Delete && r@[5].path@ == "/v0/nodes/{node_id}/pools/{pool_id}"@
            && r@[5].handler == Handler::DelNodePool,
        r@[6].method == Method::Delete && r@[6].path@ == "/v0/pools/{pool_id}"@ && r@[6].handler
            == Handler::DelPool,
{
    let mut r: Vec<Route> = Vec::new();
    r.push(route(Method::Get, "/v0/pools", Handler::GetPools));
    r.push(route(Method::Get, "/v0/pools/{id}", Handler::GetPool));
    r.push(route(Method::Get, "/v0/nodes/{id}/pools", Handler::GetNodePools));
    r.push(route(Method::Get, "/v0/nodes/{node_id}/pools/{pool_id}", Handler::GetNodePool));
    r.push(route(Method::Put, "/v0/nodes/{node_id}/pools/{pool_id}", Handler::PutNodePool));
    r.push(route(Method::Delete, "/v0/nodes/{node_id}/pools/{pool_id}", Handler::DelNodePool));
    r.push(route(Method::Delete, "/v0/pools/{pool_id}", Handler::DelPool));
    r
}

} // verus!
