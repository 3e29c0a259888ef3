//! Typed model of the message-bus collaborator's interface: the resource
//! entities (nodes, pools, replicas, nexuses, children, volumes), the
//! request types of the bus operations, the `Filter` addressing algebra and
//! the bus error kinds. The transport itself stays outside the library;
//! every function here is a pure value computation.

use vstd::prelude::*;

verus! {

/// Reachability of a node as reported by the node service.
#[derive(Clone, Copy, Debug, PartialEq, Eq, Structural)]
pub enum NodeState {
    /// State not yet known.
    Unknown,
    /// Node is online and reachable.
    Online,
    /// Node is offline or unreachable.
    Offline,
}

/// A storage node known to the control plane.
pub struct Node {
    /// Node identifier.
    pub id: String,
    /// gRPC endpoint the node agent listens on.
    pub grpc_endpoint: String,
    /// Reachability state.
    pub state: NodeState,
}

/// State of a pool.
#[derive(Clone, Copy, Debug, PartialEq, Eq, Structural)]
pub enum PoolState {
    /// State not yet known.
    Unknown,
    /// Pool is online.
    Online,
    /// Pool is degraded.
    Degraded,
    /// Pool is faulted.
    Faulted,
}

/// A storage capacity aggregate owned by a node, built from disks.
pub struct Pool {
    /// Identifier of the owning node; immutable after creation.
    pub node: String,
    /// Pool name.
    pub name: String,
    /// Backing disk device paths or URIs.
    pub disks: Vec<String>,
    /// Pool state.
    pub state: PoolState,
    /// Total capacity in bytes.
    pub capacity: u64,
    /// Used bytes.
    pub used: u64,
}

/// Protocol over which a replica or nexus may be shared.
#[derive(Clone, Copy, Debug, PartialEq, Eq, Structural)]
pub enum Protocol {
    /// Not shared.
    Off,
    /// Shared over NVMe-oF.
    Nvmf,
    /// Shared over iSCSI.
    Iscsi,
    /// Shared as an NBD device.
    Nbd,
}

/// A unit of storage capacity hosted on a pool.
pub struct Replica {
    /// Identifier of the owning node.
    pub node: String,
    /// Replica uuid.
    pub uuid: String,
    /// Identifier of the owning pool; immutable after creation.
    pub pool: String,
    /// Size in bytes.
    pub size: u64,
    /// Thin provisioning.
    pub thin: bool,
    /// Protocol the replica is exposed over.
    pub share: Protocol,
}

/// State of a nexus child.
#[derive(Clone, Copy, Debug, PartialEq, Eq, Structural)]
pub enum ChildState {
    /// State not yet known.
    Unknown,
    /// Child is online.
    Online,
    /// Child is degraded (e.g. rebuilding).
    Degraded,
    /// Child is faulted.
    Faulted,
}

/// A single backing device attached to a nexus, keyed by its canonical URI.
pub struct Child {
    /// Canonical URI of the backing device; unique within the owning nexus.
    pub uri: String,
    /// Child state.
    pub state: ChildState,
}

impl Clone for Child {
    /// Clones preserve the child exactly, so that a looked-up child can be
    /// returned by value.
    fn clone(&self) -> (res: Self)
        ensures
            res == *self,
    {
        Child { uri: self.uri.clone(), state: self.state }
    }
}

/// An aggregation point exposing one or more children as one block device.
pub struct Nexus {
    /// Identifier of the owning node.
    pub node: String,
    /// Nexus uuid.
    pub uuid: String,
    /// Size in bytes.
    pub size: u64,
    /// The ordered collection of backing children.
    pub children: Vec<Child>,
}

/// A volume: one or more nexuses exposed as a single consumer-facing object.
pub struct Volume {
    /// Volume uuid.
    pub uuid: String,
    /// Size in bytes.
    pub size: u64,
    /// The nexuses backing this volume.
    pub children: Vec<Nexus>,
}

/// Addresses zero or more levels of the resource hierarchy: a resource is
/// identified by any documented combination of its own id and its
/// ancestors' ids.
pub enum Filter {
    /// Every resource of the requested type.
    All,
    /// Resources owned by one node.
    Node(String),
    /// One pool by id.
    Pool(String),
    /// One pool qualified by its owning node.
    NodePool(String, String),
    /// One replica by id.
    Replica(String),
    /// One replica qualified by its owning node.
    NodeReplica(String, String),
    /// One replica qualified by its owning pool.
    PoolReplica(String, String),
    /// One replica fully qualified by node and pool.
    NodePoolReplica(String, String, String),
    /// One nexus by uuid.
    Nexus(String),
    /// One nexus qualified by its owning node.
    NodeNexus(String, String),
    /// One volume by uuid.
    Volume(String),
    /// One volume qualified by a node.
    NodeVolume(String, String),
}

/// Request to create a pool on a node.
pub struct CreatePool {
    /// Node that will own the pool.
    pub node: String,
    /// Pool name.
    pub name: String,
    /// Backing disk device paths or URIs.
    pub disks: Vec<String>,
}

/// Request to destroy a pool.
pub struct DestroyPool {
    /// Node owning the pool.
    pub node: String,
    /// Pool name.
    pub name: String,
}

/// Request to create a replica on a pool.
pub struct CreateReplica {
    /// Node hosting the pool.
    pub node: String,
    /// Replica uuid.
    pub uuid: String,
    /// Pool that will host the replica.
    pub pool: String,
    /// Size in bytes.
    pub size: u64,
    /// Thin provisioning.
    pub thin: bool,
    /// Protocol to expose the replica over.
    pub share: Protocol,
}

/// Request to destroy a replica.
pub struct DestroyReplica {
    /// Node hosting the pool.
    pub node: String,
    /// Pool hosting the replica.
    pub pool: String,
    /// Replica uuid.
    pub uuid: String,
}

/// Request to create a nexus on a node.
pub struct CreateNexus {
    /// Node that will host the nexus.
    pub node: String,
    /// Nexus uuid.
    pub uuid: String,
    /// Size in bytes.
    pub size: u64,
    /// URIs of the backing children.
    pub children: Vec<String>,
}

/// Request to destroy a nexus.
pub struct DestroyNexus {
    /// Node hosting the nexus.
    pub node: String,
    /// Nexus uuid.
    pub uuid: String,
}

/// Request to share a nexus over a protocol.
pub struct ShareNexus {
    /// Node hosting the nexus.
    pub node: String,
    /// Nexus uuid.
    pub uuid: String,
    /// Encryption key, if any.
    pub key: Option<String>,
    /// Protocol to share over.
    pub protocol: Protocol,
}

/// Request to unshare a nexus.
pub struct UnshareNexus {
    /// Node hosting the nexus.
    pub node: String,
    /// Nexus uuid.
    pub uuid: String,
}

/// Request to add a child to a nexus.
pub struct AddNexusChild {
    /// Node hosting the nexus.
    pub node: String,
    /// Nexus uuid.
    pub nexus: String,
    /// Canonical URI of the child device.
    pub uri: String,
    /// Start rebuilding the new child automatically.
    pub auto_rebuild: bool,
}

/// Request to remove a child from a nexus.
pub struct RemoveNexusChild {
    /// Node hosting the nexus.
    pub node: String,
    /// Nexus uuid.
    pub nexus: String,
    /// Canonical URI of the child device.
    pub uri: String,
}

/// Request to create a volume.
pub struct CreateVolume {
    /// Volume uuid.
    pub uuid: String,
    /// Size in bytes.
    pub size: u64,
    /// Number of nexuses to build the volume from.
    pub nexuses: u64,
    /// Number of replicas per nexus.
    pub replicas: u64,
}

/// Request to destroy a volume.
pub struct DestroyVolume {
    /// Volume uuid.
    pub uuid: String,
}

/// The error kinds a bus operation may fail with.
#[derive(Debug)]
pub enum BusError {
    /// The addressed resource does not exist.
    NotFound,
    /// The filter matched more than one resource where one was required.
    NotUnique,
    /// A transport or backend-internal failure, with the kind name of the
    /// source error and the full causal chain text.
    MessageBus {
        /// Kind name of the source error.
        source: String,
        /// Full causal chain text of the source error.
        message: String,
    },
}

} // verus!
