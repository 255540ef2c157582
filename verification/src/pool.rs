//! Transport value types for storage pools, replicas and nodes: the runtime
//! state records the cluster reports and the requests that manage pools.

use crate::ids::{ChildUri, NodeId, PoolId, ReplicaId};
use crate::nexus::Protocol;
use vstd::prelude::*;

verus! {

/// Health of a storage pool.
#[derive(Clone, Copy, Debug, PartialEq, Eq, Structural)]
pub enum PoolStatus {
    /// The state is not known.
    Unknown,
    /// Healthy.
    Online,
    /// Not fully healthy.
    Degraded,
    /// Broken: no replica may be placed on it.
    Faulted,
}

impl Default for PoolStatus {
    fn default() -> (r: Self)
        ensures
            r == PoolStatus::Unknown,
    {
        PoolStatus::Unknown
    }
}

/// Runtime state of a storage pool on a node.
#[derive(Debug)]
pub struct Pool {
    /// Identifier of the pool.
    pub id: PoolId,
    /// The node the pool's capacity lives on.
    pub node: NodeId,
    /// The disk devices the pool is built from.
    pub disks: Vec<String>,
    /// Current health.
    pub status: PoolStatus,
    /// Total capacity in bytes.
    pub capacity: u64,
    /// Allocated bytes.
    pub used: u64,
}

impl Pool {
    /// The bytes still free on the pool: its capacity less what is used, and
    /// zero should a report ever show more used than the capacity.
    pub open spec fn spec_free_space(self) -> u64 {
        if self.used <= self.capacity {
            (self.capacity - self.used) as u64
        } else {
            0u64
        }
    }

    /// The bytes still free on the pool.
    pub fn free_space(&self) -> (r: u64)
        ensures
            r == self.spec_free_space(),
    {
        if self.used <= self.capacity {
            self.capacity - self.used
        } else {
            0
        }
    }

    /// Field-wise sameness, with the disks compared as sequences.
    pub open spec fn eqv(self, other: Pool) -> bool {
        &&& self.id == other.id
        &&& self.node == other.node
        &&& self.disks@ == other.disks@
        &&& self.status == other.status
        &&& self.capacity == other.capacity
        &&& self.used == other.used
    }

    /// An independent copy.
    pub fn dup(&self) -> (r: Self)
        ensures
            r.eqv(*self),
    {
        let mut disks: Vec<String> = Vec::new();
        let n = self.disks.len();
        let mut i: usize = 0;
        while i < n
            invariant
                n == self.disks@.len(),
                0 <= i <= n,
                disks@ =~= self.disks@.subrange(0, i as int),
            decreases n - i,
        {
            disks.push(self.disks[i].clone());
            i += 1;
        }
        proof {
            assert(disks@ =~= self.disks@);
        }
        Pool {
            id: self.id.dup(),
            node: self.node.dup(),
            disks,
            status: self.status,
            capacity: self.capacity,
            used: self.used,
        }
    }
}

/// Health of a replica.
#[derive(Clone, Copy, Debug, PartialEq, Eq, Structural)]
pub enum ReplicaStatus {
    /// The state is not known.
    Unknown,
    /// Healthy and usable.
    Online,
    /// Not fully healthy.
    Degraded,
    /// Broken.
    Faulted,
}

impl Default for ReplicaStatus {
    fn default() -> (r: Self)
        ensures
            r == ReplicaStatus::Unknown,
    {
        ReplicaStatus::Unknown
    }
}

/// Runtime state of one replica: a data copy of a volume carved from a pool.
#[derive(Debug)]
pub struct Replica {
    /// Identifier of the replica.
    pub id: ReplicaId,
    /// The node whose pool holds the replica.
    pub node: NodeId,
    /// The pool the replica is carved from.
    pub pool: PoolId,
    /// Size in bytes.
    pub size: u64,
    /// The protocol the replica is shared over, if any.
    pub share: Protocol,
    /// The URI the replica's data is reached at.
    pub uri: ChildUri,
    /// Current health.
    pub status: ReplicaStatus,
}

impl Replica {
    /// Whether the replica is online.
    pub fn online(&self) -> (r: bool)
        ensures
            r == (self.status == ReplicaStatus::Online),
    {
        match self.status {
            ReplicaStatus::Online => true,
            _ => false,
        }
    }

    /// An independent copy.
    pub fn dup(&self) -> (r: Self)
        ensures
            r == *self,
    {
        Replica {
            id: self.id.dup(),
            node: self.node.dup(),
            pool: self.pool.dup(),
            size: self.size,
            share: self.share,
            uri: self.uri.dup(),
            status: self.status,
        }
    }
}

/// Reachability of an io-engine node.
#[derive(Clone, Copy, Debug, PartialEq, Eq, Structural)]
pub enum NodeStatus {
    /// The state is not known.
    Unknown,
    /// Reachable and serving requests.
    Online,
    /// Not reachable.
    Offline,
}

impl Default for NodeStatus {
    fn default() -> (r: Self)
        ensures
            r == NodeStatus::Unknown,
    {
        NodeStatus::Unknown
    }
}

/// Runtime state of an io-engine node.
#[derive(Debug)]
pub struct NodeState {
    /// Identifier of the node.
    pub id: NodeId,
    /// Current reachability.
    pub status: NodeStatus,
}

impl NodeState {
    /// Whether the node is reachable and serving requests.
    pub fn is_online(&self) -> (r: bool)
        ensures
            r == (self.status == NodeStatus::Online),
    {
        match self.status {
            NodeStatus::Online => true,
            _ => false,
        }
    }

    /// An independent copy.
    pub fn dup(&self) -> (r: Self)
        ensures
            r == *self,
    {
        NodeState { id: self.id.dup(), status: self.status }
    }
}

/// Request to create a pool on a node from the given disk devices.
#[derive(Debug)]
pub struct CreatePool {
    /// The node to create the pool on.
    pub node: NodeId,
    /// The identifier the pool will get.
    pub id: PoolId,
    /// The disk devices to build the pool from.
    pub disks: Vec<String>,
}

/// Request to destroy a pool.
#[derive(Debug)]
pub struct DestroyPool {
    /// The node hosting the pool.
    pub node: NodeId,
    /// The identifier of the pool.
    pub id: PoolId,
}

/// Request to import an existing pool on a node.
#[derive(Debug)]
pub struct ImportPool {
    /// The node to import the pool on.
    pub node: NodeId,
    /// The identifier of the pool.
    pub id: PoolId,
    /// The disk devices the pool lives on.
    pub disks: Vec<String>,
}

} // verus!
