//! The client URN builder: for every filter variant a resource type
//! accepts, the exact path the server's router serves it under, so that the
//! client and server routing grammars cannot drift apart. An unsupported
//! variant fails locally, before any request could be made. Mutating
//! operations bypass filter-based addressing and build the path directly
//! from the typed request's own ancestor-id fields.

use vstd::prelude::*;
use vstd::string::StringExecFns;

use crate::message_bus::CreatePool;
use crate::message_bus::CreateReplica;
use crate::message_bus::DestroyPool;
use crate::message_bus::DestroyReplica;
use crate::message_bus::Filter;

verus! {

/// The resource collections the client reads through filtered URNs.
#[derive(Clone, Copy, Debug, PartialEq, Eq, Structural)]
pub enum RestURNs {
    /// The node collection.
    GetNodes,
    /// The pool collection.
    GetPools,
    /// The replica collection.
    GetReplicas,
}

/// An addressing error raised by the client itself, before any request is
/// made.
#[derive(Debug)]
pub struct ClientError {
    /// Human-readable description.
    pub message: String,
}

/// The URN a resource collection serves a filter under, or `None` for a
/// filter variant outside the collection's accepted set: nodes accept two
/// variants, pools four, replicas eight.
pub open spec fn spec_filtered_urn(urns: RestURNs, f: Filter) -> Option<Seq<char>> {
    match urns {
        RestURNs::GetNodes => match f {
            Filter::All => Some("nodes"@),
            Filter::Node(id) => Some("nodes/"@ + id@),
            _ => None,
        },
        RestURNs::GetPools => match f {
            Filter::All => Some("pools"@),
            Filter::Node(id) => Some("nodes/"@ + id@ + "/pools"@),
            Filter::Pool(id) => Some("pools/"@ + id@),
            Filter::NodePool(n, p) => Some("nodes/"@ + n@ + "/pools/"@ + p@),
            _ => None,
        },
        RestURNs::GetReplicas => match f {
            Filter::All => Some("replicas"@),
            Filter::Node(id) => Some("nodes/"@ + id@ + "/replicas"@),
            Filter::Pool(id) => Some("pools/"@ + id@ + "/replicas"@),
            Filter::Replica(id) => Some("replicas/"@ + id@),
            Filter::NodePool(n, p) => Some("nodes/"@ + n@ + "/pools/"@ + p@ + "/replicas"@),
            Filter::NodeReplica(n, rep) => Some("nodes/"@ + n@ + "/replicas/"@ + rep@),
            Filter::NodePoolReplica(n, p, rep) => Some(
                "nodes/"@ + n@ + "/pools/"@ + p@ + "/replicas/"@ + rep@,
            ),
            Filter::PoolReplica(p, rep) => Some("pools/"@ + p@ + "/replicas/"@ + rep@),
            _ => None,
        },
    }
}

/// The message of the local error each collection rejects an unsupported
/// filter variant with.
pub open spec fn invalid_filter_text(urns: RestURNs) -> Seq<char> {
    match urns {
        RestURNs::GetNodes => "Invalid filter for Nodes"@,
        RestURNs::GetPools => "Invalid filter for pools"@,
        RestURNs::GetReplicas => "Invalid filter for replicas"@,
    }
}

/// Builds the URN a resource collection serves a filter under. A filter
/// variant outside the collection's accepted set fails locally, without
/// any network call.
pub fn get_filtered_urn(filter: Filter, urns: &RestURNs) -> (r: Result<String, ClientError>)
    ensures
        match r {
            Ok(s) => spec_filtered_urn(*urns, filter) == Some(s@),
            Err(e) => spec_filtered_urn(*urns, filter) is None && e.message@ == invalid_filter_text(
                *urns,
            ),
        },
{
    match urns {
        RestURNs::GetNodes => match filter {
            Filter::All => Ok(String::from_str("nodes")),
            Filter::Node(id) => Ok(String::from_str("nodes/").concat(id.as_str())),
            _ => Err(ClientError { message: String::from_str("Invalid filter for Nodes") }),
        },
        RestURNs::GetPools => match filter {
            Filter::All => Ok(String::from_str("pools")),
            Filter::Node(id) => Ok(String::from_str("nodes/").concat(id.as_str()).concat("/pools")),
            Filter::Pool(id) => Ok(String::from_str("pools/").concat(id.as_str())),
            Filter::NodePool(n, p) => Ok(
                String::from_str("nodes/").concat(n.as_str()).concat("/pools/").concat(p.as_str()),
            ),
            _ => Err(ClientError { message: String::from_str("Invalid filter for pools") }),
        },
        RestURNs::GetReplicas => match filter {
            Filter::All => Ok(String::from_str("replicas")),
            Filter::Node(id) => Ok(
                String::from_str("nodes/").concat(id.as_str()).concat("/replicas"),
            ),
            Filter::Pool(id) => Ok(
                String::from_str("pools/").concat(id.as_str()).concat("/replicas"),
            ),
            Filter::Replica(id) => Ok(String::from_str("replicas/").concat(id.as_str())),
            Filter::NodePool(n, p) => Ok(
                String::from_str("nodes/").concat(n.as_str()).concat("/pools/").concat(
                    p.as_str(),
                ).concat("/replicas"),
            ),
            Filter::NodeReplica(n, rep) => Ok(
                String::from_str("nodes/").concat(n.as_str()).concat("/replicas/").concat(
                    rep.as_str(),
                ),
            ),
            Filter::NodePoolReplica(n, p, rep) => Ok(
                String::from_str("nodes/").concat(n.as_str()).concat("/pools/").concat(
                    p.as_str(),
                ).concat("/replicas/").concat(rep.as_str()),
            ),
            Filter::PoolReplica(p, rep) => Ok(
                String::from_str("pools/").concat(p.as_str()).concat("/replicas/").concat(
                    rep.as_str(),
                ),
            ),
            _ => Err(ClientError { message: String::from_str("Invalid filter for replicas") }),
        },
    }
}

/// Builds the full versioned path for a filtered read: the filtered URN
/// under the `/v0/` prefix, or the builder's own local error.
pub fn v0_urn(filter: Filter, urns: &RestURNs) -> (r: Result<String, ClientError>)
    ensures
        match r {
            Ok(s) => spec_filtered_urn(*urns, filter) matches Some(u) && s@ == "/v0/"@ + u,
            Err(e) => spec_filtered_urn(*urns, filter) is None && e.message@ == invalid_filter_text(
                *urns,
            ),
        },
{
    match get_filtered_urn(filter, urns) {
        Ok(u) => Ok(String::from_str("/v0/").concat(u.as_str())),
        Err(e) => Err(e),
    }
}

/// The path a pool create request is PUT to, built from the request's own
/// node and pool ids.
pub fn create_pool_urn(args: &CreatePool) -> (s: String)
    ensures
        s@ == "/v0/nodes/"@ + args.node@ + "/pools/"@ + args.name@,
{
    String::from_str("/v0/nodes/").concat(args.node.as_str()).concat("/pools/").concat(
        args.name.as_str(),
    )
}

/// The path a pool destroy request is sent to, built from the request's
/// own node and pool ids.
pub fn destroy_pool_urn(args: &DestroyPool) -> (s: String)
    ensures
        s@ == "/v0/nodes/"@ + args.node@ + "/pools/"@ + args.name@,
{
    String::from_str("/v0/nodes/").concat(args.node.as_str()).concat("/pools/").concat(
        args.name.as_str(),
    )
}

/// The path a replica create request is PUT to, built from the request's
/// own node, pool and replica ids.
pub fn create_replica_urn(args: &CreateReplica) -> (s: String)
    ensures
        s@ == "/v0/nodes/"@ + args.node@ + "/pools/"@ + args.pool@ + "/replicas/"@ + args.uuid@,
{
    String::from_str("/v0/nodes/").concat(args.node.as_str()).concat("/pools/").concat(
        args.pool.as_str(),
    ).concat("/replicas/").concat(args.uuid.as_str())
}

/// The path a replica destroy request is sent to, built from the request's
/// own node, pool and replica ids.
pub fn destroy_replica_urn(args: &DestroyReplica) -> (s: String)
    ensures
        s@ == "/v0/nodes/"@ + args.node@ + "/pools/"@ + args.pool@ + "/replicas/"@ + args.uuid@,
{
    String::from_str("/v0/nodes/").concat(args.node.as_str()).concat("/pools/").concat(
        args.pool.as_str(),
    ).concat("/replicas/").concat(args.uuid.as_str())
}

} // verus!
