//! The JSON request bodies of the create endpoints. A body carries only the
//! resource-owned attributes; `bus_request` enriches it with the
//! path-derived ancestor ids to build the full backend create request.

use vstd::prelude::*;

use crate::message_bus::CreateNexus;
use crate::message_bus::CreatePool;
use crate::message_bus::CreateReplica;
use crate::message_bus::CreateVolume;
use crate::message_bus::Protocol;

verus! {

/// Clones a vector of URI strings, preserving the contents exactly.
fn clone_uris(v: &Vec<String>) -> (r: Vec<String>)
    ensures
        r@ == v@,
{
    let mut r: Vec<String> = Vec::new();
    let mut i: usize = 0;
    while i < v.len()
        invariant
            i <= v@.len(),
            r@.len() == i,
            forall|j: int| 0 <= j < i ==> r@[j] == v@[j],
        decreases v@.len() - i,
    {
        r.push(v[i].clone());
        i += 1;
    }
    proof {
        assert(r@ =~= v@);
    }
    r
}

/// Body of a pool create request: the attributes the pool itself owns.
pub struct CreatePoolBody {
    /// Disk device paths or URIs to be claimed by the pool.
    pub disks: Vec<String>,
}

impl CreatePoolBody {
    /// Enriches the body with the path-derived node and pool ids into the
    /// full backend create request.
    pub fn bus_request(&self, node_id: String, pool_id: String) -> (r: CreatePool)
        ensures
            r.node == node_id,
            r.name == pool_id,
            r.disks@ == self.disks@,
    {
        CreatePool { node: node_id, name: pool_id, disks: clone_uris(&self.disks) }
    }
}

impl From<CreatePool> for CreatePoolBody {
    /// The body of a typed create request: its resource-owned attributes.
    fn from(create: CreatePool) -> (r: Self) {
        CreatePoolBody { disks: create.disks }
    }
}

impl vstd::std_specs::convert::FromSpecImpl<CreatePool> for CreatePoolBody {
    open spec fn obeys_from_spec() -> bool {
        true
    }

    open spec fn from_spec(create: CreatePool) -> Self {
        CreatePoolBody { disks: create.disks }
    }
}

/// Body of a replica create request: the attributes the replica itself owns.
pub struct CreateReplicaBody {
    /// Size of the replica in bytes.
    pub size: u64,
    /// Thin provisioning.
    pub thin: bool,
    /// Protocol to expose the replica over.
    pub share: Protocol,
}

impl CreateReplicaBody {
    /// Enriches the body with the path-derived node, pool and replica ids
    /// into the full backend create request.
    pub fn bus_request(&self, node_id: String, pool_id: String, uuid: String) -> (r: CreateReplica)
        ensures
            r.node == node_id,
            r.uuid == uuid,
            r.pool == pool_id,
            r.size == self.size,
            r.thin == self.thin,
            r.share == self.share,
    {
        CreateReplica {
            node: node_id,
            uuid,
            pool: pool_id,
            size: self.size,
            thin: self.thin,
            share: self.share,
        }
    }
}

impl From<CreateReplica> for CreateReplicaBody {
    /// The body of a typed create request: its resource-owned attributes.
    fn from(create: CreateReplica) -> (r: Self) {
        CreateReplicaBody { size: create.size, thin: create.thin, share: create.share }
    }
}

impl vstd::std_specs::convert::FromSpecImpl<CreateReplica> for CreateReplicaBody {
    open spec fn obeys_from_spec() -> bool {
        true
    }

    open spec fn from_spec(create: CreateReplica) -> Self {
        CreateReplicaBody { size: create.size, thin: create.thin, share: create.share }
    }
}

/// Body of a nexus create request: the attributes the nexus itself owns.
pub struct CreateNexusBody {
    /// Size of the nexus in bytes.
    pub size: u64,
    /// URIs of the backing children.
    pub children: Vec<String>,
}

impl CreateNexusBody {
    /// Enriches the body with the path-derived node and nexus ids into the
    /// full backend create request.
    pub fn bus_request(&self, node_id: String, nexus_id: String) -> (r: CreateNexus)
        ensures
            r.node == node_id,
            r.uuid == nexus_id,
            r.size == self.size,
            r.children@ == self.children@,
    {
        CreateNexus {
            node: node_id,
            uuid: nexus_id,
            size: self.size,
            children: clone_uris(&self.children),
        }
    }
}

/// Body of a volume create request: the attributes the volume itself owns.
pub struct CreateVolumeBody {
    /// Size of the volume in bytes.
    pub size: u64,
    /// Number of nexuses to build the volume from.
    pub nexuses: u64,
    /// Number of replicas per nexus.
    pub replicas: u64,
}

impl CreateVolumeBody {
    /// Enriches the body with the path-derived volume uuid into the full
    /// backend create request.
    pub fn bus_request(&self, volume_id: String) -> (r: CreateVolume)
        ensures
            r.uuid == volume_id,
            r.size == self.size,
            r.nexuses == self.nexuses,
            r.replicas == self.replicas,
    {
        CreateVolume {
            uuid: volume_id,
            size: self.size,
            nexuses: self.nexuses,
            replicas: self.replicas,
        }
    }
}

} // verus!
