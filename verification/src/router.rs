//! Data-driven route registration: each resource module exposes a `factory`
//! returning the exact table of (method, path template, handler) tuples its
//! endpoints are served under, so that the routing grammar is stated once
//! and checked rather than scattered over per-route boilerplate.

use vstd::prelude::*;
use vstd::string::StringExecFns;

verus! {

/// HTTP method of a route.
#[derive(Clone, Copy, Debug, PartialEq, Eq, Structural)]
pub enum Method {
    /// HTTP GET.
    Get,
    /// HTTP PUT.
    Put,
    /// HTTP DELETE.
    Delete,
}

/// Identifies the handler a route dispatches to, one variant per endpoint.
#[derive(Clone, Copy, Debug, PartialEq, Eq, Structural)]
pub enum Handler {
    /// List all nodes.
    GetNodes,
    /// Get one node by id.
    GetNode,
    /// List all pools.
    GetPools,
    /// Get one pool by id.
    GetPool,
    /// List the pools of a node.
    GetNodePools,
    /// Get one pool qualified by node.
    GetNodePool,
    /// Create a pool on a node.
    PutNodePool,
    /// Destroy a pool qualified by node.
    DelNodePool,
    /// Destroy a pool by id alone.
    DelPool,
    /// List all nexuses.
    GetNexuses,
    /// Get one nexus by uuid.
    GetNexus,
    /// List the nexuses of a node.
    GetNodeNexuses,
    /// Get one nexus qualified by node.
    GetNodeNexus,
    /// Create a nexus on a node.
    PutNodeNexus,
    /// Destroy a nexus qualified by node.
    DelNodeNexus,
    /// Destroy a nexus by uuid alone.
    DelNexus,
    /// Share a nexus over a protocol.
    PutNodeNexusShare,
    /// Unshare a nexus.
    DelNodeNexusShare,
    /// List the children of a nexus.
    GetNexusChildren,
    /// Get one child of a nexus.
    GetNexusChild,
    /// List the children of a nexus qualified by node.
    GetNodeNexusChildren,
    /// Get one child of a nexus qualified by node.
    GetNodeNexusChild,
    /// Add a child to a nexus.
    AddNexusChild,
    /// Add a child to a nexus qualified by node.
    AddNodeNexusChild,
    /// Remove a child from a nexus.
    DeleteNexusChild,
    /// Remove a child from a nexus qualified by node.
    DeleteNodeNexusChild,
    /// List all volumes.
    GetVolumes,
    /// Get one volume by uuid.
    GetVolume,
    /// List the volumes of a node.
    GetNodeVolumes,
    /// Get one volume qualified by node.
    GetNodeVolume,
    /// Create a volume.
    PutVolume,
    /// Destroy a volume.
    DelVolume,
}

/// One entry of a resource module's route table.
pub struct Route {
    /// HTTP method the route answers to.
    pub method: Method,
    /// Path template, with `{x}` path parameters.
    pub path: String,
    /// The handler the route dispatches to.
    pub handler: Handler,
}

/// Builds one route table entry.
pub fn route(method: Method, path: &str, handler: Handler) -> (r: Route)
    ensures
        r.method == method,
        r.path@ == path@,
        r.handler == handler,
{
    Route { method, path: String::from_str(path), handler }
}

} // verus!
