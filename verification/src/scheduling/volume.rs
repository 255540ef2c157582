//! Contexts and selection entry points for volume-level scheduling: placing
//! a new replica on a pool, growing a volume's nexus by a replica, and
//! ranking replicas for removal when shrinking a volume.

use crate::ids::{node_list_contains, NodeId, VolumeId};
use crate::pool::PoolStatus;
use crate::scheduling::pipeline::{
    filter_candidates, lemma_filter_filter, lemma_permutation_of_filter, rank_candidates,
    sort_candidates,
};
use crate::scheduling::resources::{ChildItem, NexusSpec, PoolItem, ReplicaItem, VolumeSpec};
use crate::scheduling::{
    AddReplicaFilters, AddReplicaSorters, ChildSorters, NodeFilters, PoolFilters, PoolSorters,
};
use core::cmp::Ordering;
use vstd::prelude::*;
use vstd::relations::sorted_by;

verus! {

/// Per-request context for choosing a pool for a new replica of a volume.
///
/// It bundles the request parameters with the snapshots read from the
/// desired-state registry when the context was built: the allowed-node
/// topology constraint (empty meaning unconstrained) and the nodes already
/// holding a replica of the volume.
#[derive(Debug)]
pub struct GetSuitablePoolsContext {
    /// The volume a replica is placed for.
    pub uuid: VolumeId,
    /// Requested replica size in bytes.
    pub size: u64,
    /// The nodes the topology allows, empty when unconstrained.
    pub allowed_nodes: Vec<NodeId>,
    /// The nodes already hosting a replica of the volume.
    pub used_nodes: Vec<NodeId>,
}

impl GetSuitablePoolsContext {
    /// The nodes the topology allows, empty when unconstrained.
    pub fn allowed_nodes(&self) -> (r: &Vec<NodeId>)
        ensures
            r == &self.allowed_nodes,
    {
        &self.allowed_nodes
    }

    /// The nodes already hosting a replica of the volume.
    pub fn used_nodes(&self) -> (r: &Vec<NodeId>)
        ensures
            r == &self.used_nodes,
    {
        &self.used_nodes
    }
}

/// Per-request context for choosing which replica of a volume to add to a
/// nexus.
#[derive(Debug)]
pub struct VolumeReplicasForNexusCtx {
    /// Desired state of the volume being grown.
    pub vol_spec: VolumeSpec,
    /// Desired state of the nexus the replica is added to.
    pub nexus_spec: NexusSpec,
}

impl VolumeReplicasForNexusCtx {
    /// Desired state of the volume being grown.
    pub fn vol_spec(&self) -> (r: &VolumeSpec)
        ensures
            r == &self.vol_spec,
    {
        &self.vol_spec
    }

    /// Desired state of the nexus the replica is added to.
    pub fn nexus_spec(&self) -> (r: &NexusSpec)
        ensures
            r == &self.nexus_spec,
    {
        &self.nexus_spec
    }
}

/// Node eligibility for a new replica: the node is online, the topology
/// allows it, and the volume has no replica on it yet.
pub open spec fn spec_node_eligible(request: GetSuitablePoolsContext, item: PoolItem) -> bool {
    &&& NodeFilters::spec_online(request, item)
    &&& NodeFilters::spec_allowed(request, item)
    &&& NodeFilters::spec_unused(request, item)
}

/// Pool eligibility for a new replica: the pool is usable and has free
/// space strictly above the requested size.
pub open spec fn spec_pool_fit(request: GetSuitablePoolsContext, item: PoolItem) -> bool {
    &&& PoolFilters::spec_usable(request, item)
    &&& PoolFilters::spec_free_space(request, item)
}

/// A candidate pool is eligible when both its node and the pool itself are.
pub open spec fn spec_pool_eligible(request: GetSuitablePoolsContext, item: PoolItem) -> bool {
    spec_node_eligible(request, item) && spec_pool_fit(request, item)
}

/// The pool ranking as a reflexive "ranks no worse than" relation.
pub open spec fn spec_pool_leq(a: PoolItem, b: PoolItem) -> bool {
    PoolSorters::spec_sort_by_replica_count(a, b) != Ordering::Greater
}

/// The pool ranking orders any two candidates.
pub proof fn lemma_pool_ranking_total(a: PoolItem, b: PoolItem)
    ensures
        spec_pool_leq(a, b) || spec_pool_leq(b, a),
{
}

/// The pool ranking chains over any three candidates.
pub proof fn lemma_pool_ranking_transitive(a: PoolItem, b: PoolItem, c: PoolItem)
    requires
        spec_pool_leq(a, b),
        spec_pool_leq(b, c),
    ensures
        spec_pool_leq(a, c),
{
}

/// Choose the pools a new replica of the volume may be placed on: exactly
/// the eligible candidates ([`spec_pool_eligible`]), ordered ascending by
/// allocated-replica count.  An empty result means placement is impossible
/// and is not an error.
pub fn select_pool(request: &GetSuitablePoolsContext, items: Vec<PoolItem>) -> (r: Vec<PoolItem>)
    ensures
        r@.to_multiset() == items@.filter(
            |item: PoolItem| spec_pool_eligible(*request, item),
        ).to_multiset(),
        sorted_by(r@, |a: PoolItem, b: PoolItem| spec_pool_leq(a, b)),
        // no returned pool lacks space, is unhealthy, or already hosts a
        // replica of the volume
        forall|i: int| 0 <= i < r@.len() ==> spec_pool_eligible(*request, #[trigger] r@[i]),
        // every eligible candidate is returned
        forall|i: int|
            0 <= i < items@.len() && spec_pool_eligible(*request, #[trigger] items@[i])
                ==> r@.contains(items@[i]),
{
    let ghost p1 = |item: PoolItem| spec_node_eligible(*request, item);
    let ghost p2 = |item: PoolItem| spec_pool_fit(*request, item);
    let ghost pe = |item: PoolItem| spec_pool_eligible(*request, item);
    let stage1 = filter_candidates(
        items,
        (|item: &PoolItem| -> (keep: bool)
            ensures
                keep == spec_node_eligible(*request, *item),
            {
                NodeFilters::online(request, item) && NodeFilters::allowed(request, item)
                    && NodeFilters::unused(request, item)
            }),
        Ghost(p1),
    );
    let stage2 = filter_candidates(
        stage1,
        (|item: &PoolItem| -> (keep: bool)
            ensures
                keep == spec_pool_fit(*request, *item),
            {
                PoolFilters::usable(request, item) && PoolFilters::free_space(request, item)
            }),
        Ghost(p2),
    );
    proof {
        lemma_filter_filter(items@, p1, p2);
        assert(pe =~= (|item: PoolItem| p1(item) && p2(item)));
        assert(stage2@ == items@.filter(pe));
    }
    let ghost leq = |a: PoolItem, b: PoolItem| spec_pool_leq(a, b);
    proof {
        assert forall|a: PoolItem, b: PoolItem| #[trigger] leq(a, b) || #[trigger] leq(
            b,
            a,
        ) by {
            lemma_pool_ranking_total(a, b);
        }
        assert forall|a: PoolItem, b: PoolItem, c: PoolItem|
            #[trigger] leq(a, b) && #[trigger] leq(b, c) implies leq(a, c) by {
            lemma_pool_ranking_transitive(a, b, c);
        }
    }
    let ranked = sort_candidates(
        stage2,
        (|a: &PoolItem, b: &PoolItem| -> (o: Ordering)
            ensures
                o == PoolSorters::spec_sort_by_replica_count(*a, *b),
            {
                PoolSorters::sort_by_replica_count(a, b)
            }),
        Ghost(leq),
    );
    proof {
        lemma_permutation_of_filter(items@, pe, ranked@);
    }
    ranked
}

/// Replica eligibility for growing a nexus: the replica is online and at
/// least as large as the volume's configured size.
pub open spec fn spec_add_replica_eligible(
    request: VolumeReplicasForNexusCtx,
    item: ChildItem,
) -> bool {
    &&& AddReplicaFilters::spec_online(request, item)
    &&& AddReplicaFilters::spec_size(request, item)
}

/// The add-replica ranking as a reflexive "ranks no worse than" relation.
pub open spec fn spec_add_replica_leq(
    request: VolumeReplicasForNexusCtx,
    a: ChildItem,
    b: ChildItem,
) -> bool {
    AddReplicaSorters::spec_sort(request, a, b) != Ordering::Greater
}

/// The add-replica ranking orders any two candidates: local before remote;
/// among equal locality, marked-healthy before not; among equal locality
/// and health, larger pool free space before smaller.
pub proof fn lemma_add_replica_ranking_total(
    request: VolumeReplicasForNexusCtx,
    a: ChildItem,
    b: ChildItem,
)
    ensures
        spec_add_replica_leq(request, a, b) || spec_add_replica_leq(request, b, a),
{
}

/// The add-replica ranking chains over any three candidates.
pub proof fn lemma_add_replica_ranking_transitive(
    request: VolumeReplicasForNexusCtx,
    a: ChildItem,
    b: ChildItem,
    c: ChildItem,
)
    requires
        spec_add_replica_leq(request, a, b),
        spec_add_replica_leq(request, b, c),
    ensures
        spec_add_replica_leq(request, a, c),
{
}

/// Choose the replicas that may be added to the volume's nexus: exactly the
/// online, large-enough candidates, ranked local-first, then by recorded
/// health, then by pool free space.
pub fn select_replica_to_add(
    request: &VolumeReplicasForNexusCtx,
    items: Vec<ChildItem>,
) -> (r: Vec<ChildItem>)
    ensures
        r@.to_multiset() == items@.filter(
            |item: ChildItem| spec_add_replica_eligible(*request, item),
        ).to_multiset(),
        sorted_by(r@, |a: ChildItem, b: ChildItem| spec_add_replica_leq(*request, a, b)),
        forall|i: int|
            0 <= i < r@.len() ==> spec_add_replica_eligible(*request, #[trigger] r@[i]),
        forall|i: int|
            0 <= i < items@.len() && spec_add_replica_eligible(*request, #[trigger] items@[i])
                ==> r@.contains(items@[i]),
{
    let ghost pe = |item: ChildItem| spec_add_replica_eligible(*request, item);
    let eligible = filter_candidates(
        items,
        (|item: &ChildItem| -> (keep: bool)
            ensures
                keep == spec_add_replica_eligible(*request, *item),
            {
                AddReplicaFilters::online(request, item) && AddReplicaFilters::size(request, item)
            }),
        Ghost(pe),
    );
    let ghost leq = |a: ChildItem, b: ChildItem| spec_add_replica_leq(*request, a, b);
    proof {
        assert forall|a: ChildItem, b: ChildItem| #[trigger] leq(a, b) || #[trigger] leq(
            b,
            a,
        ) by {
            lemma_add_replica_ranking_total(*request, a, b);
        }
        assert forall|a: ChildItem, b: ChildItem, c: ChildItem|
            #[trigger] leq(a, b) && #[trigger] leq(b, c) implies leq(a, c) by {
            lemma_add_replica_ranking_transitive(*request, a, b, c);
        }
    }
    let ranked = sort_candidates(
        eligible,
        (|a: &ChildItem, b: &ChildItem| -> (o: Ordering)
            ensures
                o == AddReplicaSorters::spec_sort(*request, *a, *b),
            {
                AddReplicaSorters::sort(request, a, b)
            }),
        Ghost(leq),
    );
    proof {
        lemma_permutation_of_filter(items@, pe, ranked@);
    }
    ranked
}

/// The removal ranking never lets both orders of a pair rank `Greater`.
pub proof fn lemma_removal_ranking_antisymmetric(a: ReplicaItem, b: ReplicaItem)
    ensures
        ChildSorters::spec_sort(a, b) == Ordering::Greater ==> ChildSorters::spec_sort(b, a)
            != Ordering::Greater,
{
}

/// The removal ranking between a non-attached and an attached replica is
/// fixed: the non-attached replica always ranks first (is removed first);
/// and between two attached replicas with reported states of equal health,
/// the one with lower rebuild progress ranks first.
pub proof fn lemma_removal_ranking(a: ReplicaItem, b: ReplicaItem)
    ensures
        a.child_uri is None && b.child_uri is Some ==> ChildSorters::spec_sort(a, b)
            == Ordering::Less,
        a.child_uri is Some && b.child_uri is None ==> ChildSorters::spec_sort(a, b)
            == Ordering::Greater,
        (a.child_uri is Some && b.child_uri is Some && a.child_state is Some
            && b.child_state is Some && a.child_state->0.state == b.child_state->0.state)
            ==> ChildSorters::spec_sort_by_child(a, b) == crate::scheduling::spec_progress_cmp(
            a.child_state->0.rebuild_progress,
            b.child_state->0.rebuild_progress,
        ),
{
}

/// Rank the volume's replicas for removal when decreasing its replica
/// count: a permutation of the candidates in which no replica ranks
/// `Greater` than its successor; the first element is the removal
/// candidate.
pub fn select_replica_to_remove(items: Vec<ReplicaItem>) -> (r: Vec<ReplicaItem>)
    ensures
        r@.len() == items@.len(),
        r@.to_multiset() == items@.to_multiset(),
        forall|i: int|
            0 <= i < r@.len() - 1 ==> ChildSorters::spec_sort(#[trigger] r@[i], r@[i + 1])
                != Ordering::Greater,
{
    let ghost c = |a: ReplicaItem, b: ReplicaItem| ChildSorters::spec_sort(a, b);
    proof {
        assert forall|a: ReplicaItem, b: ReplicaItem|
            #[trigger] c(a, b) == Ordering::Greater implies c(b, a) != Ordering::Greater by {
            lemma_removal_ranking_antisymmetric(a, b);
        }
    }
    let ranked = rank_candidates(
        items,
        (|a: &ReplicaItem, b: &ReplicaItem| -> (o: Ordering)
            ensures
                o == ChildSorters::spec_sort(*a, *b),
            {
                ChildSorters::sort(a, b)
            }),
        Ghost(c),
    );
    proof {
        assert forall|i: int|
            0 <= i < ranked@.len() - 1 implies ChildSorters::spec_sort(
            #[trigger] ranked@[i],
            ranked@[i + 1],
        ) != Ordering::Greater by {
            assert(c(ranked@[i], ranked@[i + 1]) != Ordering::Greater);
        }
    }
    ranked
}

} // verus!
