//! The resource state cache: the latest observed runtime state of nexuses,
//! pools and replicas, each class refreshed wholesale from cluster reports.
//! A reader is always handed detached copies; a class refresh replaces that
//! class's whole snapshot, so no single-class read mixes two snapshots.
//! There is no atomicity across classes: a decision reading pools and
//! replicas together may see snapshots from different refresh instants.

use crate::ids::{NexusId, PoolId, ReplicaId};
use crate::nexus::Nexus;
use crate::pool::{Pool, Replica};
use crate::resource_map::{unique_keys, ResourceKeyed, ResourceMap};
use vstd::prelude::*;
use vstd::rwlock::{RwLock, RwLockPredicate};

verus! {

impl ResourceKeyed for Nexus {
    open spec fn spec_key(self) -> Seq<char> {
        self.uuid@
    }

    open spec fn same(self, other: Self) -> bool {
        self.eqv(other)
    }

    fn key_matches(&self, key: &String) -> (r: bool) {
        self.uuid.0 == *key
    }

    fn duplicate(&self) -> (r: Self) {
        self.dup()
    }
}

impl ResourceKeyed for Pool {
    open spec fn spec_key(self) -> Seq<char> {
        self.id@
    }

    open spec fn same(self, other: Self) -> bool {
        self.eqv(other)
    }

    fn key_matches(&self, key: &String) -> (r: bool) {
        self.id.0 == *key
    }

    fn duplicate(&self) -> (r: Self) {
        self.dup()
    }
}

impl ResourceKeyed for Replica {
    open spec fn spec_key(self) -> Seq<char> {
        self.id@
    }

    open spec fn same(self, other: Self) -> bool {
        self == other
    }

    fn key_matches(&self, key: &String) -> (r: bool) {
        self.id.0 == *key
    }

    fn duplicate(&self) -> (r: Self) {
        self.dup()
    }
}

/// The latest observed state of every resource class, keyed by identifier.
pub struct ResourceStates {
    nexuses: ResourceMap<Nexus>,
    pools: ResourceMap<Pool>,
    replicas: ResourceMap<Replica>,
}

impl ResourceStates {
    /// The nexus records of the current snapshot.
    pub closed spec fn spec_nexuses(self) -> Seq<Nexus> {
        self.nexuses.records()
    }

    /// The pool records of the current snapshot.
    pub closed spec fn spec_pools(self) -> Seq<Pool> {
        self.pools.records()
    }

    /// The replica records of the current snapshot.
    pub closed spec fn spec_replicas(self) -> Seq<Replica> {
        self.replicas.records()
    }

    /// The cache invariant: within each class, keys are unique.
    pub open spec fn wf(self) -> bool {
        &&& unique_keys(self.spec_nexuses())
        &&& unique_keys(self.spec_pools())
        &&& unique_keys(self.spec_replicas())
    }

    /// An empty cache.
    pub fn new() -> (r: Self)
        ensures
            r.spec_nexuses() == Seq::<Nexus>::empty(),
            r.spec_pools() == Seq::<Pool>::empty(),
            r.spec_replicas() == Seq::<Replica>::empty(),
            r.wf(),
    {
        ResourceStates {
            nexuses: ResourceMap::new(),
            pools: ResourceMap::new(),
            replicas: ResourceMap::new(),
        }
    }

    /// Update the various resource states.
    pub fn update(&mut self, pools: Vec<Pool>, replicas: Vec<Replica>, nexuses: Vec<Nexus>)
        requires
            unique_keys(pools@),
            unique_keys(replicas@),
            unique_keys(nexuses@),
        ensures
            final(self).spec_pools() == pools@,
            final(self).spec_replicas() == replicas@,
            final(self).spec_nexuses() == nexuses@,
            final(self).wf(),
    {
        self.update_replicas(replicas);
        self.update_pools(pools);
        self.update_nexuses(nexuses);
    }

    /// Replace the whole nexus snapshot.
    pub fn update_nexuses(&mut self, nexuses: Vec<Nexus>)
        requires
            unique_keys(nexuses@),
        ensures
            final(self).spec_nexuses() == nexuses@,
            final(self).spec_pools() == old(self).spec_pools(),
            final(self).spec_replicas() == old(self).spec_replicas(),
            unique_keys(final(self).spec_nexuses()),
    {
        self.nexuses.clear();
        self.nexuses.populate(nexuses);
    }

    /// Detached copies of the nexus states.
    pub fn get_nexus_states(&self) -> (r: Vec<Nexus>)
        ensures
            r@.len() == self.spec_nexuses().len(),
            forall|i: int|
                0 <= i < r@.len() ==> (#[trigger] r@[i]).eqv(self.spec_nexuses()[i]),
    {
        self.nexuses.to_vec()
    }

    /// A detached copy of the state of the nexus with the given identifier.
    pub fn get_nexus_state(&self, id: &NexusId) -> (r: Option<Nexus>)
        ensures
            r is Some <==> exists|i: int|
                0 <= i < self.spec_nexuses().len() && (#[trigger] self.spec_nexuses()[i]).uuid@
                    == id@,
            r is Some ==> exists|i: int|
                0 <= i < self.spec_nexuses().len() && (#[trigger] self.spec_nexuses()[i]).uuid@
                    == id@ && r->0.eqv(self.spec_nexuses()[i]),
    {
        self.nexuses.get(&id.0)
    }

    /// Replace the whole pool snapshot.
    pub fn update_pools(&mut self, pools: Vec<Pool>)
        requires
            unique_keys(pools@),
        ensures
            final(self).spec_pools() == pools@,
            final(self).spec_nexuses() == old(self).spec_nexuses(),
            final(self).spec_replicas() == old(self).spec_replicas(),
            unique_keys(final(self).spec_pools()),
    {
        self.pools.clear();
        self.pools.populate(pools);
    }

    /// Detached copies of the pool states.
    pub fn get_pool_states(&self) -> (r: Vec<Pool>)
        ensures
            r@.len() == self.spec_pools().len(),
            forall|i: int| 0 <= i < r@.len() ==> (#[trigger] r@[i]).eqv(self.spec_pools()[i]),
    {
        self.pools.to_vec()
    }

    /// A detached copy of the state of the pool with the given identifier.
    pub fn get_pool_state(&self, id: &PoolId) -> (r: Option<Pool>)
        ensures
            r is Some <==> exists|i: int|
                0 <= i < self.spec_pools().len() && (#[trigger] self.spec_pools()[i]).id@ == id@,
            r is Some ==> exists|i: int|
                0 <= i < self.spec_pools().len() && (#[trigger] self.spec_pools()[i]).id@ == id@
                    && r->0.eqv(self.spec_pools()[i]),
    {
        self.pools.get(&id.0)
    }

    /// Replace the whole replica snapshot.
    pub fn update_replicas(&mut self, replicas: Vec<Replica>)
        requires
            unique_keys(replicas@),
        ensures
            final(self).spec_replicas() == replicas@,
            final(self).spec_nexuses() == old(self).spec_nexuses(),
            final(self).spec_pools() == old(self).spec_pools(),
            unique_keys(final(self).spec_replicas()),
    {
        self.replicas.clear();
        self.replicas.populate(replicas);
    }

    /// Detached copies of the replica states.
    pub fn get_replica_states(&self) -> (r: Vec<Replica>)
        ensures
            r@.len() == self.spec_replicas().len(),
            forall|i: int| 0 <= i < r@.len() ==> #[trigger] r@[i] == self.spec_replicas()[i],
    {
        let r = self.replicas.to_vec();
        proof {
            assert forall|i: int| 0 <= i < r@.len() implies #[trigger] r@[i]
                == self.spec_replicas()[i] by {
                assert(r@[i].same(self.spec_replicas()[i]));
            }
        }
        r
    }

    /// A detached copy of the state of the replica with the given
    /// identifier.
    pub fn get_replica_state(&self, id: &ReplicaId) -> (r: Option<Replica>)
        ensures
            r is Some <==> exists|i: int|
                0 <= i < self.spec_replicas().len() && (#[trigger] self.spec_replicas()[i]).id@
                    == id@,
            r is Some ==> exists|i: int|
                0 <= i < self.spec_replicas().len() && (#[trigger] self.spec_replicas()[i]).id@
                    == id@ && r->0 == self.spec_replicas()[i],
    {
        self.replicas.get(&id.0)
    }

    /// Clear all state information, as on a full resync or failover.
    pub fn clear_all(&mut self)
        ensures
            final(self).spec_nexuses() == Seq::<Nexus>::empty(),
            final(self).spec_pools() == Seq::<Pool>::empty(),
            final(self).spec_replicas() == Seq::<Replica>::empty(),
            final(self).wf(),
    {
        self.nexuses.clear();
        self.pools.clear();
        self.replicas.clear();
    }
}

impl Default for ResourceStates {
    fn default() -> (r: Self)
        ensures
            r.spec_nexuses() == Seq::<Nexus>::empty(),
            r.spec_pools() == Seq::<Pool>::empty(),
            r.spec_replicas() == Seq::<Replica>::empty(),
            r.wf(),
    {
        ResourceStates::new()
    }
}

/// After `update_pools(list)` a read of the pool states gives exactly the
/// clones of `list`, one record per submitted pool, field for field: this
/// chains the contract of `update_pools` (first two premises) with the
/// contract of `get_pool_states` (last two premises).
pub proof fn lemma_pool_snapshot_exact(
    cache: ResourceStates,
    list: Seq<Pool>,
    read: Seq<Pool>,
)
    requires
        cache.spec_pools() == list,
        read.len() == cache.spec_pools().len(),
        forall|i: int| 0 <= i < read.len() ==> (#[trigger] read[i]).eqv(cache.spec_pools()[i]),
    ensures
        read.len() == list.len(),
        forall|i: int| 0 <= i < read.len() ==> (#[trigger] read[i]).eqv(list[i]),
{
}

/// The lock invariant of the shared cache: the snapshot is well formed.
pub struct CacheInv {}

impl RwLockPredicate<ResourceStates> for CacheInv {
    open spec fn inv(self, s: ResourceStates) -> bool {
        s.wf()
    }
}

/// The cache behind a class-wide reader/writer lock, shared by the many
/// tasks that refresh and read it concurrently.  A writer replaces a whole
/// class under the write lock; a reader copies its snapshot out under the
/// read lock, so nothing is ever borrowed across a suspension point.
pub struct ResourceStatesLocked {
    lock: RwLock<ResourceStates, CacheInv>,
}

impl ResourceStatesLocked {
    /// A new, empty shared cache.
    pub fn new() -> (r: Self) {
        ResourceStatesLocked { lock: RwLock::new(ResourceStates::new(), Ghost(CacheInv {  })) }
    }

    /// Replace the whole pool snapshot.
    pub fn update_pools(&self, pools: Vec<Pool>)
        requires
            unique_keys(pools@),
    {
        let (mut states, handle) = self.lock.acquire_write();
        states.update_pools(pools);
        handle.release_write(states);
    }

    /// Replace the whole replica snapshot.
    pub fn update_replicas(&self, replicas: Vec<Replica>)
        requires
            unique_keys(replicas@),
    {
        let (mut states, handle) = self.lock.acquire_write();
        states.update_replicas(replicas);
        handle.release_write(states);
    }

    /// Replace the whole nexus snapshot.
    pub fn update_nexuses(&self, nexuses: Vec<Nexus>)
        requires
            unique_keys(nexuses@),
    {
        let (mut states, handle) = self.lock.acquire_write();
        states.update_nexuses(nexuses);
        handle.release_write(states);
    }

    /// Update the various resource states in one write-lock acquisition.
    pub fn update(&self, pools: Vec<Pool>, replicas: Vec<Replica>, nexuses: Vec<Nexus>)
        requires
            unique_keys(pools@),
            unique_keys(replicas@),
            unique_keys(nexuses@),
    {
        let (mut states, handle) = self.lock.acquire_write();
        states.update(pools, replicas, nexuses);
        handle.release_write(states);
    }

    /// Clear all state information.
    pub fn clear_all(&self) {
        let (mut states, handle) = self.lock.acquire_write();
        states.clear_all();
        handle.release_write(states);
    }

    /// Detached copies of the pool states of the snapshot current at the
    /// read: one record per pool, no identifier twice.
    pub fn get_pool_states(&self) -> (r: Vec<Pool>)
        ensures
            forall|i: int, j: int| 0 <= i < j < r@.len() ==> (#[trigger] r@[i]).id@ != (
            #[trigger] r@[j]).id@,
    {
        let handle = self.lock.acquire_read();
        let r = handle.borrow().get_pool_states();
        handle.release_read();
        r
    }

    /// Detached copies of the nexus states of the snapshot current at the
    /// read: one record per nexus, no identifier twice.
    pub fn get_nexus_states(&self) -> (r: Vec<Nexus>)
        ensures
            forall|i: int, j: int| 0 <= i < j < r@.len() ==> (#[trigger] r@[i]).uuid@ != (
            #[trigger] r@[j]).uuid@,
    {
        let handle = self.lock.acquire_read();
        let r = handle.borrow().get_nexus_states();
        handle.release_read();
        r
    }

    /// Detached copies of the replica states of the snapshot current at the
    /// read: one record per replica, no identifier twice.
    pub fn get_replica_states(&self) -> (r: Vec<Replica>)
        ensures
            forall|i: int, j: int| 0 <= i < j < r@.len() ==> (#[trigger] r@[i]).id@ != (
            #[trigger] r@[j]).id@,
    {
        let handle = self.lock.acquire_read();
        let r = handle.borrow().get_replica_states();
        handle.release_read();
        r
    }

    /// A detached copy of one pool's state in the snapshot current at the
    /// read.
    pub fn get_pool_state(&self, id: &PoolId) -> (r: Option<Pool>)
        ensures
            r is Some ==> r->0.id@ == id@,
    {
        let handle = self.lock.acquire_read();
        let r = handle.borrow().get_pool_state(id);
        handle.release_read();
        r
    }

    /// A detached copy of one nexus's state in the snapshot current at the
    /// read.
    pub fn get_nexus_state(&self, id: &NexusId) -> (r: Option<Nexus>)
        ensures
            r is Some ==> r->0.uuid@ == id@,
    {
        let handle = self.lock.acquire_read();
        let r = handle.borrow().get_nexus_state(id);
        handle.release_read();
        r
    }

    /// A detached copy of one replica's state in the snapshot current at
    /// the read.
    pub fn get_replica_state(&self, id: &ReplicaId) -> (r: Option<Replica>)
        ensures
            r is Some ==> r->0.id@ == id@,
    {
        let handle = self.lock.acquire_read();
        let r = handle.borrow().get_replica_state(id);
        handle.release_read();
        r
    }
}

} // verus!
