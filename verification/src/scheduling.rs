//! The policy stage libraries of the resource-selection engine: named groups
//! of filter predicates and sort comparators for each decision point.
//!
//! Every predicate is pure and total, with a specification twin its contract
//! ties it to; every comparator returns a deterministic ordering.  The
//! selection entry points in the submodules compose these stages over a
//! candidate list; an empty result is a valid outcome and means placement is
//! impossible.

pub mod nexus;
pub mod pipeline;
pub mod resources;
pub mod volume;

use crate::ids::{contains_node, node_list_contains};
use crate::nexus::Protocol;
use crate::pool::{NodeStatus, PoolStatus};
use crate::scheduling::nexus::GetPersistedNexusChildrenCtx;
use crate::scheduling::resources::{ChildItem, NexusChildItem, PoolItem, ReplicaItem, ReplicaSpec};
use crate::scheduling::volume::{GetSuitablePoolsContext, VolumeReplicasForNexusCtx};
use core::cmp::Ordering;
use vstd::prelude::*;

verus! {

/// Ascending order on optional rebuild progress, with an absent value before
/// every present one.
pub open spec fn spec_progress_cmp(a: Option<u8>, b: Option<u8>) -> Ordering {
    match (a, b) {
        (Option::None, Option::None) => Ordering::Equal,
        (Option::None, Option::Some(_)) => Ordering::Less,
        (Option::Some(_), Option::None) => Ordering::Greater,
        (Option::Some(x), Option::Some(y)) => if x < y {
            Ordering::Less
        } else if x == y {
            Ordering::Equal
        } else {
            Ordering::Greater
        },
    }
}

/// Executable twin of [`spec_progress_cmp`].
fn progress_cmp(a: &Option<u8>, b: &Option<u8>) -> (r: Ordering)
    ensures
        r == spec_progress_cmp(*a, *b),
{
    match (a, b) {
        (None, None) => Ordering::Equal,
        (None, Some(_)) => Ordering::Less,
        (Some(_), None) => Ordering::Greater,
        (Some(x), Some(y)) => {
            if *x < *y {
                Ordering::Less
            } else if *x == *y {
                Ordering::Equal
            } else {
                Ordering::Greater
            }
        },
    }
}

/// Order on optional locality: an absent value first, then remote (`false`),
/// then local (`true`).
pub open spec fn spec_locality_cmp(a: Option<bool>, b: Option<bool>) -> Ordering {
    if spec_locality_rank(a) < spec_locality_rank(b) {
        Ordering::Less
    } else if spec_locality_rank(a) == spec_locality_rank(b) {
        Ordering::Equal
    } else {
        Ordering::Greater
    }
}

/// Position of an optional locality in the order above.
pub open spec fn spec_locality_rank(a: Option<bool>) -> int {
    match a {
        Option::None => 0,
        Option::Some(false) => 1,
        Option::Some(true) => 2,
    }
}

/// Executable twin of [`spec_locality_cmp`].
fn locality_cmp(a: &Option<bool>, b: &Option<bool>) -> (r: Ordering)
    ensures
        r == spec_locality_cmp(*a, *b),
{
    let ra: u8 = match a {
        None => 0,
        Some(false) => 1,
        Some(true) => 2,
    };
    let rb: u8 = match b {
        None => 0,
        Some(false) => 1,
        Some(true) => 2,
    };
    if ra < rb {
        Ordering::Less
    } else if ra == rb {
        Ordering::Equal
    } else {
        Ordering::Greater
    }
}

/// Filters on the node a pool lives on, used when placing a new replica.
pub struct NodeFilters {}

impl NodeFilters {
    /// Holds when the candidate pool's node is online.
    pub open spec fn spec_online(request: GetSuitablePoolsContext, item: PoolItem) -> bool {
        item.node.status == NodeStatus::Online
    }

    /// Should only attempt to use online nodes.
    pub fn online(request: &GetSuitablePoolsContext, item: &PoolItem) -> (r: bool)
        ensures
            r == Self::spec_online(*request, *item),
    {
        item.node.is_online()
    }

    /// Holds when the allowed-node topology leaves the candidate's node in:
    /// an empty constraint allows every node.
    pub open spec fn spec_allowed(request: GetSuitablePoolsContext, item: PoolItem) -> bool {
        request.allowed_nodes@.len() == 0 || node_list_contains(
            request.allowed_nodes@,
            item.pool.state.node@,
        )
    }

    /// Should only attempt to use nodes the topology allows.
    pub fn allowed(request: &GetSuitablePoolsContext, item: &PoolItem) -> (r: bool)
        ensures
            r == Self::spec_allowed(*request, *item),
    {
        request.allowed_nodes().len() == 0 || contains_node(
            request.allowed_nodes(),
            &item.pool.state.node,
        )
    }

    /// Holds when the volume has no replica on the candidate's node yet
    /// (one replica per node per volume).
    pub open spec fn spec_unused(request: GetSuitablePoolsContext, item: PoolItem) -> bool {
        !node_list_contains(request.used_nodes@, item.pool.state.node@)
    }

    /// Should only attempt to use nodes not currently used by the volume.
    pub fn unused(request: &GetSuitablePoolsContext, item: &PoolItem) -> (r: bool)
        ensures
            r == Self::spec_unused(*request, *item),
    {
        !contains_node(request.used_nodes(), &item.pool.state.node)
    }
}

/// Filters on the pool itself, used when placing a new replica.
pub struct PoolFilters {}

impl PoolFilters {
    /// Holds when the pool's free space strictly exceeds the requested size.
    pub open spec fn spec_free_space(request: GetSuitablePoolsContext, item: PoolItem) -> bool {
        item.pool.state.spec_free_space() > request.size
    }

    /// Should only attempt to use pools with sufficient free space.
    pub fn free_space(request: &GetSuitablePoolsContext, item: &PoolItem) -> (r: bool)
        ensures
            r == Self::spec_free_space(*request, *item),
    {
        item.pool.free_space() > request.size
    }

    /// Holds when the pool is neither faulted nor of unknown health.
    pub open spec fn spec_usable(request: GetSuitablePoolsContext, item: PoolItem) -> bool {
        item.pool.state.status != PoolStatus::Faulted && item.pool.state.status
            != PoolStatus::Unknown
    }

    /// Should only attempt to use usable (not faulted) pools.
    pub fn usable(request: &GetSuitablePoolsContext, item: &PoolItem) -> (r: bool)
        ensures
            r == Self::spec_usable(*request, *item),
    {
        item.pool.state.status != PoolStatus::Faulted && item.pool.state.status
            != PoolStatus::Unknown
    }
}

/// Ranking of pools when placing a new replica.
pub struct PoolSorters {}

impl PoolSorters {
    /// Ascending order by the number of replicas currently allocated from
    /// the pool: the load-spreading heuristic.
    pub open spec fn spec_sort_by_replica_count(a: PoolItem, b: PoolItem) -> Ordering {
        if a.pool.replicas@.len() < b.pool.replicas@.len() {
            Ordering::Less
        } else if a.pool.replicas@.len() == b.pool.replicas@.len() {
            Ordering::Equal
        } else {
            Ordering::Greater
        }
    }

    /// Sort pools by their number of allocated replicas.
    pub fn sort_by_replica_count(a: &PoolItem, b: &PoolItem) -> (r: Ordering)
        ensures
            r == Self::spec_sort_by_replica_count(*a, *b),
    {
        let ca = a.pool.replica_count();
        let cb = b.pool.replica_count();
        if ca < cb {
            Ordering::Less
        } else if ca == cb {
            Ordering::Equal
        } else {
            Ordering::Greater
        }
    }
}

/// Removal ranking of a volume's replicas when decreasing its replica
/// count: the first element of the sorted list is removed.
pub struct ChildSorters {}

impl ChildSorters {
    /// Removal order between two replicas: first by their attachment to a
    /// nexus ([`Self::spec_sort_by_child`]); among replicas that order
    /// leaves tied, a shared (non-local) replica is removed before a local
    /// one.
    pub open spec fn spec_sort(a: ReplicaItem, b: ReplicaItem) -> Ordering {
        match Self::spec_sort_by_child(a, b) {
            Ordering::Equal => {
                let a_local = a.replica_spec.share == Protocol::Unshared;
                let b_local = b.replica_spec.share == Protocol::Unshared;
                if a_local == b_local {
                    Ordering::Equal
                } else if a_local {
                    Ordering::Greater
                } else {
                    Ordering::Less
                }
            },
            ord => ord,
        }
    }

    /// Removal order by nexus attachment: a replica that is not attached to
    /// a nexus is removed before an attached one; among attached replicas
    /// the child health states decide, with equal health broken by rebuild
    /// progress (the least-rebuilt child is removed first) and incomparable
    /// health left to the caller's next criterion.
    pub open spec fn spec_sort_by_child(a: ReplicaItem, b: ReplicaItem) -> Ordering {
        match (a.child_uri, b.child_uri) {
            (Option::None, Option::None) => Ordering::Equal,
            (Option::None, Option::Some(_)) => Ordering::Less,
            (Option::Some(_), Option::None) => Ordering::Greater,
            (Option::Some(_), Option::Some(_)) => match (a.child_state, b.child_state) {
                (Option::Some(sa), Option::Some(sb)) => match sa.state.spec_partial_cmp(
                    sb.state,
                ) {
                    Option::Some(Ordering::Equal) => spec_progress_cmp(
                        sa.rebuild_progress,
                        sb.rebuild_progress,
                    ),
                    Option::Some(ord) => ord,
                    Option::None => Ordering::Equal,
                },
                (Option::Some(_), Option::None) => Ordering::Less,
                (Option::None, Option::Some(_)) => Ordering::Greater,
                (Option::None, Option::None) => Ordering::Equal,
            },
        }
    }

    /// Sort replicas by their nexus child (state and rebuild progress),
    /// breaking ties by locality.
    pub fn sort(a: &ReplicaItem, b: &ReplicaItem) -> (r: Ordering)
        ensures
            r == Self::spec_sort(*a, *b),
    {
        match Self::sort_by_child(a, b) {
            Ordering::Equal => {
                let a_local = !a.replica_spec().share.shared();
                let b_local = !b.replica_spec().share.shared();
                if a_local == b_local {
                    Ordering::Equal
                } else if a_local {
                    Ordering::Greater
                } else {
                    Ordering::Less
                }
            },
            ord => ord,
        }
    }

    /// Sort replicas by their attachment to a nexus.
    pub fn sort_by_child(a: &ReplicaItem, b: &ReplicaItem) -> (r: Ordering)
        ensures
            r == Self::spec_sort_by_child(*a, *b),
    {
        match (a.child_spec(), b.child_spec()) {
            (None, None) => Ordering::Equal,
            // prefer removing the replica that is not part of a nexus
            (None, Some(_)) => Ordering::Less,
            (Some(_), None) => Ordering::Greater,
            (Some(_), Some(_)) => {
                match (a.child_state(), b.child_state()) {
                    (Some(sa), Some(sb)) => {
                        match sa.state.partial_compare(&sb.state) {
                            Some(Ordering::Equal) => progress_cmp(
                                &sa.rebuild_progress,
                                &sb.rebuild_progress,
                            ),
                            Some(ord) => ord,
                            None => Ordering::Equal,
                        }
                    },
                    (Some(_), None) => Ordering::Less,
                    (None, Some(_)) => Ordering::Greater,
                    (None, None) => Ordering::Equal,
                }
            },
        }
    }
}

/// Eligibility of nexus-child candidates by their persisted health record,
/// used when creating a nexus.
pub struct ChildInfoFilters {}

impl ChildInfoFilters {
    /// Holds on a first-ever creation (no persisted nexus information), or
    /// when the candidate's persisted record marks it healthy.
    pub open spec fn spec_healthy(request: GetPersistedNexusChildrenCtx, item: ChildItem) -> bool {
        request.nexus_info is None || (item.info is Some && item.info->0.healthy)
    }

    /// Should only allow healthy children.
    pub fn healthy(request: &GetPersistedNexusChildrenCtx, item: &ChildItem) -> (r: bool)
        ensures
            r == Self::spec_healthy(*request, *item),
    {
        // on first creation there is no persisted information, so all
        // children are deemed healthy
        let first_create = request.nexus_info().is_none();
        first_create || (match item.info() {
            Some(info) => info.healthy,
            None => false,
        })
    }
}

/// Eligibility of nexus-child candidates by their replica's live state,
/// used when creating a nexus.
pub struct ReplicaFilters {}

impl ReplicaFilters {
    /// Holds when the candidate's replica is online.
    pub open spec fn spec_online(request: GetPersistedNexusChildrenCtx, item: ChildItem) -> bool {
        item.state.status == crate::pool::ReplicaStatus::Online
    }

    /// Should only allow children with corresponding online replicas.
    pub fn online(request: &GetPersistedNexusChildrenCtx, item: &ChildItem) -> (r: bool)
        ensures
            r == Self::spec_online(*request, *item),
    {
        item.state().online()
    }

    /// Holds when the candidate's replica is at least as large as the nexus
    /// being created.
    pub open spec fn spec_size(request: GetPersistedNexusChildrenCtx, item: ChildItem) -> bool {
        item.state.size >= request.nexus_spec.size
    }

    /// Should only allow children with large enough replicas.
    pub fn size(request: &GetPersistedNexusChildrenCtx, item: &ChildItem) -> (r: bool)
        ensures
            r == Self::spec_size(*request, *item),
    {
        item.state().size >= request.nexus_spec().size
    }
}

/// Ranking of nexus-child candidates when creating a nexus.
pub struct ChildItemSorters {}

impl ChildItemSorters {
    /// Candidates local to the node the nexus will be created on come
    /// first; locality is the sole criterion at this stage.
    pub open spec fn spec_sort_by_locality(
        request: GetPersistedNexusChildrenCtx,
        a: ChildItem,
        b: ChildItem,
    ) -> Ordering {
        let a_local = a.state.node@ == request.nexus_spec.node@;
        let b_local = b.state.node@ == request.nexus_spec.node@;
        if a_local && !b_local {
            Ordering::Less
        } else if !a_local && b_local {
            Ordering::Greater
        } else {
            Ordering::Equal
        }
    }

    /// Sort child candidates for nexus creation, preferring children local
    /// to where the nexus will be created.
    pub fn sort_by_locality(
        request: &GetPersistedNexusChildrenCtx,
        a: &ChildItem,
        b: &ChildItem,
    ) -> (r: Ordering)
        ensures
            r == Self::spec_sort_by_locality(*request, *a, *b),
    {
        let a_is_local = a.state().node == *request.target_node();
        let b_is_local = b.state().node == *request.target_node();
        match (a_is_local, b_is_local) {
            (true, false) => Ordering::Less,
            (false, true) => Ordering::Greater,
            (_, _) => Ordering::Equal,
        }
    }
}

/// Eligibility of replicas considered for addition to an existing nexus.
pub struct AddReplicaFilters {}

impl AddReplicaFilters {
    /// Holds when the candidate's replica is online.
    pub open spec fn spec_online(request: VolumeReplicasForNexusCtx, item: ChildItem) -> bool {
        item.state.status == crate::pool::ReplicaStatus::Online
    }

    /// Should only allow children with corresponding online replicas.
    pub fn online(request: &VolumeReplicasForNexusCtx, item: &ChildItem) -> (r: bool)
        ensures
            r == Self::spec_online(*request, *item),
    {
        item.state().online()
    }

    /// Holds when the candidate's replica is at least as large as the
    /// volume's configured size.
    pub open spec fn spec_size(request: VolumeReplicasForNexusCtx, item: ChildItem) -> bool {
        item.state.size >= request.vol_spec.size
    }

    /// Should only allow children with large enough replicas.
    pub fn size(request: &VolumeReplicasForNexusCtx, item: &ChildItem) -> (r: bool)
        ensures
            r == Self::spec_size(*request, *item),
    {
        item.state().size >= request.vol_spec().size
    }
}

/// Ranking of replicas considered for addition to an existing nexus.
pub struct AddReplicaSorters {}

impl AddReplicaSorters {
    /// Lexicographic order, each criterion breaking the previous one's
    /// ties: replicas local to the nexus's node first, then replicas whose
    /// persisted record marks them healthy, then replicas whose pool has
    /// more free space.
    pub open spec fn spec_sort(
        request: VolumeReplicasForNexusCtx,
        a: ChildItem,
        b: ChildItem,
    ) -> Ordering {
        let a_local = a.state.node@ == request.nexus_spec.node@;
        let b_local = b.state.node@ == request.nexus_spec.node@;
        if a_local && !b_local {
            Ordering::Less
        } else if !a_local && b_local {
            Ordering::Greater
        } else {
            let a_healthy = a.info is Some && a.info->0.healthy;
            let b_healthy = b.info is Some && b.info->0.healthy;
            if a_healthy && !b_healthy {
                Ordering::Less
            } else if !a_healthy && b_healthy {
                Ordering::Greater
            } else if a.pool.spec_free_space() > b.pool.spec_free_space() {
                Ordering::Less
            } else if a.pool.spec_free_space() == b.pool.spec_free_space() {
                Ordering::Equal
            } else {
                Ordering::Greater
            }
        }
    }

    /// Sort replicas for addition to a nexus: local before remote, healthy
    /// before not marked healthy, larger pool free space before smaller.
    pub fn sort(request: &VolumeReplicasForNexusCtx, a: &ChildItem, b: &ChildItem) -> (r:
        Ordering)
        ensures
            r == Self::spec_sort(*request, *a, *b),
    {
        let a_is_local = a.state().node == request.nexus_spec().node;
        let b_is_local = b.state().node == request.nexus_spec().node;
        match (a_is_local, b_is_local) {
            (true, false) => Ordering::Less,
            (false, true) => Ordering::Greater,
            (_, _) => {
                let a_healthy = match a.info() {
                    Some(info) => info.healthy,
                    None => false,
                };
                let b_healthy = match b.info() {
                    Some(info) => info.healthy,
                    None => false,
                };
                match (a_healthy, b_healthy) {
                    (true, false) => Ordering::Less,
                    (false, true) => Ordering::Greater,
                    (_, _) => {
                        let fa = a.pool().free_space();
                        let fb = b.pool().free_space();
                        if fa > fb {
                            Ordering::Less
                        } else if fa == fb {
                            Ordering::Equal
                        } else {
                            Ordering::Greater
                        }
                    },
                }
            },
        }
    }
}

/// The locality of the replica backing a nexus child: absent for a generic
/// URI child, otherwise whether the replica is unshared (local).
pub open spec fn spec_replica_locality(replica: Option<ReplicaSpec>) -> Option<bool> {
    match replica {
        Option::Some(replica_spec) => Option::Some(replica_spec.share == Protocol::Unshared),
        Option::None => Option::None,
    }
}

/// Removal ranking of a nexus's children: the first element of the sorted
/// list is removed.
pub struct NexusChildSorter {}

impl NexusChildSorter {
    /// A child backed by a replica spec ranks after a generic-URI child, so
    /// non-replica-backed children are removed first; among the rest the
    /// child health states decide, and on equal or incomparable health a
    /// non-local child is removed before a local one.
    pub open spec fn spec_sort(a: NexusChildItem, b: NexusChildItem) -> Ordering {
        match (a.replica, b.replica) {
            (Option::Some(_), Option::None) => Ordering::Greater,
            (Option::None, Option::Some(_)) => Ordering::Less,
            _ => match (a.child_state, b.child_state) {
                (Option::Some(sa), Option::Some(sb)) => match sa.state.spec_partial_cmp(
                    sb.state,
                ) {
                    Option::Some(Ordering::Less) => Ordering::Less,
                    Option::Some(Ordering::Greater) => Ordering::Greater,
                    _ => spec_locality_cmp(
                        spec_replica_locality(a.replica),
                        spec_replica_locality(b.replica),
                    ),
                },
                (Option::Some(_), Option::None) => Ordering::Greater,
                (Option::None, Option::Some(_)) => Ordering::Less,
                (Option::None, Option::None) => Ordering::Equal,
            },
        }
    }

    /// Sort nexus children for removal: generic-URI children first, then by
    /// child state, then children which are not local to the nexus.
    pub fn sort(a: &NexusChildItem, b: &NexusChildItem) -> (r: Ordering)
        ensures
            r == Self::spec_sort(*a, *b),
    {
        match (a.replica(), b.replica()) {
            (Some(_), None) => Ordering::Greater,
            (None, Some(_)) => Ordering::Less,
            (_, _) => {
                match (a.child_state(), b.child_state()) {
                    (Some(sa), Some(sb)) => {
                        match sa.state.partial_compare(&sb.state) {
                            Some(Ordering::Less) => Ordering::Less,
                            Some(Ordering::Greater) => Ordering::Greater,
                            _ => {
                                let a_is_local = match a.replica() {
                                    Some(replica_spec) => Some(!replica_spec.share.shared()),
                                    None => None,
                                };
                                let b_is_local = match b.replica() {
                                    Some(replica_spec) => Some(!replica_spec.share.shared()),
                                    None => None,
                                };
                                locality_cmp(&a_is_local, &b_is_local)
                            },
                        }
                    },
                    (Some(_), None) => Ordering::Greater,
                    (None, Some(_)) => Ordering::Less,
                    (None, None) => Ordering::Equal,
                }
            },
        }
    }
}

} // verus!
