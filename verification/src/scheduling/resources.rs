//! View records the scheduling pipeline works on: short-lived joins of a
//! desired-state spec with the corresponding live state from the cache, plus
//! the persisted child-health metadata consulted at nexus creation.  They are
//! built per scheduling call and discarded afterwards.

use crate::ids::{ChildUri, NexusId, NodeId, PoolId, ReplicaId, VolumeId};
use crate::nexus::{Child, Protocol};
use crate::pool::{NodeState, Pool, Replica};
use vstd::prelude::*;

verus! {

/// Persisted health record of one nexus child, written after a rebuild.
#[derive(Debug)]
pub struct ChildInfo {
    /// The replica the record is about.
    pub uuid: ReplicaId,
    /// Whether the child held the volume's data when last seen.
    pub healthy: bool,
}

impl ChildInfo {
    /// An independent copy.
    pub fn dup(&self) -> (r: Self)
        ensures
            r == *self,
    {
        ChildInfo { uuid: self.uuid.dup(), healthy: self.healthy }
    }
}

/// Persisted information of a nexus, keyed by its owning volume (or none)
/// and its identifier.
#[derive(Debug)]
pub struct NexusInfo {
    /// Whether the nexus was shut down cleanly.
    pub clean_shutdown: bool,
    /// Health records of the nexus's children.
    pub children: Vec<ChildInfo>,
}

/// Desired state of a replica.
#[derive(Debug)]
pub struct ReplicaSpec {
    /// Identifier of the replica.
    pub uuid: ReplicaId,
    /// Size in bytes.
    pub size: u64,
    /// The pool the replica is carved from.
    pub pool: PoolId,
    /// The protocol the replica is shared over, if any; an unshared replica
    /// is local to its node.
    pub share: Protocol,
}

impl ReplicaSpec {
    /// An independent copy.
    pub fn dup(&self) -> (r: Self)
        ensures
            r == *self,
    {
        ReplicaSpec {
            uuid: self.uuid.dup(),
            size: self.size,
            pool: self.pool.dup(),
            share: self.share,
        }
    }
}

/// Desired state of a nexus.
#[derive(Debug)]
pub struct NexusSpec {
    /// Identifier of the nexus.
    pub uuid: NexusId,
    /// The node the nexus lives on.
    pub node: NodeId,
    /// Size of the exposed device in bytes.
    pub size: u64,
}

impl NexusSpec {
    /// An independent copy.
    pub fn dup(&self) -> (r: Self)
        ensures
            r == *self,
    {
        NexusSpec { uuid: self.uuid.dup(), node: self.node.dup(), size: self.size }
    }
}

/// Desired state of a volume.
#[derive(Debug)]
pub struct VolumeSpec {
    /// Identifier of the volume.
    pub uuid: VolumeId,
    /// Configured size in bytes.
    pub size: u64,
}

impl VolumeSpec {
    /// An independent copy.
    pub fn dup(&self) -> (r: Self)
        ensures
            r == *self,
    {
        VolumeSpec { uuid: self.uuid.dup(), size: self.size }
    }
}

/// A pool's live state joined with the replicas currently allocated from it.
#[derive(Debug)]
pub struct PoolWrapper {
    /// The pool's live state.
    pub state: Pool,
    /// The replicas currently carved from the pool.
    pub replicas: Vec<Replica>,
}

impl PoolWrapper {
    /// The bytes still free on the pool.
    pub fn free_space(&self) -> (r: u64)
        ensures
            r == self.state.spec_free_space(),
    {
        self.state.free_space()
    }

    /// How many replicas are currently allocated from the pool.
    pub fn replica_count(&self) -> (r: usize)
        ensures
            r == self.replicas@.len(),
    {
        self.replicas.len()
    }
}

/// Candidate for placing a new replica: a pool joined with the live state of
/// its node.
#[derive(Debug)]
pub struct PoolItem {
    /// Live state of the node the pool is on.
    pub node: NodeState,
    /// The pool and its current replicas.
    pub pool: PoolWrapper,
}

/// Candidate replica for becoming a nexus child: the replica's live state
/// joined with its pool's live state and its persisted health record, if one
/// exists.
#[derive(Debug)]
pub struct ChildItem {
    /// Live state of the candidate replica.
    pub state: Replica,
    /// Live state of the pool the replica is carved from.
    pub pool: Pool,
    /// The persisted health record of the replica as a child, if any.
    pub info: Option<ChildInfo>,
}

impl ChildItem {
    /// Live state of the candidate replica.
    pub fn state(&self) -> (r: &Replica)
        ensures
            r == &self.state,
    {
        &self.state
    }

    /// Live state of the pool the replica is carved from.
    pub fn pool(&self) -> (r: &Pool)
        ensures
            r == &self.pool,
    {
        &self.pool
    }

    /// The persisted health record of the replica as a child, if any.
    pub fn info(&self) -> (r: &Option<ChildInfo>)
        ensures
            r == &self.info,
    {
        &self.info
    }
}

/// Candidate replica for removal when shrinking a volume: its desired state
/// joined with its current attachment to a nexus, if it is attached.
#[derive(Debug)]
pub struct ReplicaItem {
    /// Desired state of the replica.
    pub replica_spec: ReplicaSpec,
    /// The URI under which the replica is a nexus child, when its nexus's
    /// desired state lists it.
    pub child_uri: Option<ChildUri>,
    /// The live state of the replica as a nexus child, when the nexus
    /// reports it.
    pub child_state: Option<Child>,
}

impl ReplicaItem {
    /// Desired state of the replica.
    pub fn replica_spec(&self) -> (r: &ReplicaSpec)
        ensures
            r == &self.replica_spec,
    {
        &self.replica_spec
    }

    /// The URI under which the replica is a nexus child, if it is one.
    pub fn child_spec(&self) -> (r: &Option<ChildUri>)
        ensures
            r == &self.child_uri,
    {
        &self.child_uri
    }

    /// The live state of the replica as a nexus child, if reported.
    pub fn child_state(&self) -> (r: &Option<Child>)
        ensures
            r == &self.child_state,
    {
        &self.child_state
    }
}

/// Candidate child for removal from a nexus: the child's URI, the replica
/// spec backing it when one does, and the child's live state when reported.
#[derive(Debug)]
pub struct NexusChildItem {
    /// The URI the nexus connects the child at.
    pub child_uri: ChildUri,
    /// The replica backing the child, when the child is not a generic URI.
    pub replica: Option<ReplicaSpec>,
    /// The live state of the child, when the nexus reports it.
    pub child_state: Option<Child>,
}

impl NexusChildItem {
    /// The replica backing the child, if one does.
    pub fn replica(&self) -> (r: &Option<ReplicaSpec>)
        ensures
            r == &self.replica,
    {
        &self.replica
    }

    /// The live state of the child, if reported.
    pub fn child_state(&self) -> (r: &Option<Child>)
        ensures
            r == &self.child_state,
    {
        &self.child_state
    }
}

} // verus!
