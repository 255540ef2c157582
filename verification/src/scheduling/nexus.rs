//! Context and selection entry points for assembling the child set of a
//! nexus at creation time.

use crate::ids::NodeId;
use crate::scheduling::pipeline::{
    filter_candidates, lemma_permutation_of_filter, rank_candidates, sort_candidates,
};
use crate::scheduling::resources::{ChildItem, NexusChildItem, NexusInfo, NexusSpec};
use crate::scheduling::{ChildInfoFilters, ChildItemSorters, NexusChildSorter, ReplicaFilters};
use core::cmp::Ordering;
use vstd::prelude::*;
use vstd::relations::sorted_by;

verus! {

/// Per-request context for choosing the children of a nexus being created:
/// the nexus's desired state together with its persisted information from a
/// prior creation, if any exists.
#[derive(Debug)]
pub struct GetPersistedNexusChildrenCtx {
    /// Desired state of the nexus being created.
    pub nexus_spec: NexusSpec,
    /// Persisted information from a prior creation; absent on the first
    /// ever creation.
    pub nexus_info: Option<NexusInfo>,
}

impl GetPersistedNexusChildrenCtx {
    /// Desired state of the nexus being created.
    pub fn nexus_spec(&self) -> (r: &NexusSpec)
        ensures
            r == &self.nexus_spec,
    {
        &self.nexus_spec
    }

    /// The node the nexus will be created on.
    pub fn target_node(&self) -> (r: &NodeId)
        ensures
            r == &self.nexus_spec.node,
    {
        &self.nexus_spec.node
    }

    /// Persisted information from a prior creation, if any exists.
    pub fn nexus_info(&self) -> (r: &Option<NexusInfo>)
        ensures
            r == &self.nexus_info,
    {
        &self.nexus_info
    }
}

/// A candidate may become a child of the nexus when its persisted record
/// leaves it healthy (or no record exists at all), its replica is online,
/// and the replica is at least as large as the nexus being created.
pub open spec fn spec_child_eligible(
    request: GetPersistedNexusChildrenCtx,
    item: ChildItem,
) -> bool {
    &&& ChildInfoFilters::spec_healthy(request, item)
    &&& ReplicaFilters::spec_online(request, item)
    &&& ReplicaFilters::spec_size(request, item)
}

/// Eligibility on a first-ever creation, when no persisted record exists:
/// online and large enough is all that is asked.
pub open spec fn spec_child_first_create_eligible(
    request: GetPersistedNexusChildrenCtx,
    item: ChildItem,
) -> bool {
    &&& ReplicaFilters::spec_online(request, item)
    &&& ReplicaFilters::spec_size(request, item)
}

/// The child ranking as a reflexive "ranks no worse than" relation.
pub open spec fn spec_child_leq(
    request: GetPersistedNexusChildrenCtx,
    a: ChildItem,
    b: ChildItem,
) -> bool {
    ChildItemSorters::spec_sort_by_locality(request, a, b) != Ordering::Greater
}

/// The child ranking orders any two candidates.
pub proof fn lemma_child_ranking_total(
    request: GetPersistedNexusChildrenCtx,
    a: ChildItem,
    b: ChildItem,
)
    ensures
        spec_child_leq(request, a, b) || spec_child_leq(request, b, a),
{
}

/// The child ranking chains over any three candidates.
pub proof fn lemma_child_ranking_transitive(
    request: GetPersistedNexusChildrenCtx,
    a: ChildItem,
    b: ChildItem,
    c: ChildItem,
)
    requires
        spec_child_leq(request, a, b),
        spec_child_leq(request, b, c),
    ensures
        spec_child_leq(request, a, c),
{
}

/// Choose the children for a nexus being created: exactly the eligible
/// candidates ([`spec_child_eligible`]), with candidates local to the
/// target node first.  On a first-ever creation every online, large-enough
/// candidate is eligible; on a subsequent creation only candidates whose
/// persisted record marks them healthy are.
pub fn select_nexus_children(
    request: &GetPersistedNexusChildrenCtx,
    items: Vec<ChildItem>,
) -> (r: Vec<ChildItem>)
    ensures
        r@.to_multiset() == items@.filter(
            |item: ChildItem| spec_child_eligible(*request, item),
        ).to_multiset(),
        sorted_by(r@, |a: ChildItem, b: ChildItem| spec_child_leq(*request, a, b)),
        forall|i: int| 0 <= i < r@.len() ==> spec_child_eligible(*request, #[trigger] r@[i]),
        forall|i: int|
            0 <= i < items@.len() && spec_child_eligible(*request, #[trigger] items@[i])
                ==> r@.contains(items@[i]),
        // on a first-ever creation the persisted record excludes nobody
        request.nexus_info is None ==> r@.to_multiset() == items@.filter(
            |item: ChildItem| spec_child_first_create_eligible(*request, item),
        ).to_multiset(),
        // on a subsequent creation every returned candidate is recorded
        // healthy
        request.nexus_info is Some ==> forall|i: int|
            0 <= i < r@.len() ==> (#[trigger] r@[i]).info is Some && r@[i].info->0.healthy,
{
    let ghost pe = |item: ChildItem| spec_child_eligible(*request, item);
    let eligible = filter_candidates(
        items,
        (|item: &ChildItem| -> (keep: bool)
            ensures
                keep == spec_child_eligible(*request, *item),
            {
                ChildInfoFilters::healthy(request, item) && ReplicaFilters::online(request, item)
                    && ReplicaFilters::size(request, item)
            }),
        Ghost(pe),
    );
    let ghost leq = |a: ChildItem, b: ChildItem| spec_child_leq(*request, a, b);
    proof {
        assert forall|a: ChildItem, b: ChildItem| #[trigger] leq(a, b) || #[trigger] leq(
            b,
            a,
        ) by {
            lemma_child_ranking_total(*request, a, b);
        }
        assert forall|a: ChildItem, b: ChildItem, c: ChildItem|
            #[trigger] leq(a, b) && #[trigger] leq(b, c) implies leq(a, c) by {
            lemma_child_ranking_transitive(*request, a, b, c);
        }
    }
    let ranked = sort_candidates(
        eligible,
        (|a: &ChildItem, b: &ChildItem| -> (o: Ordering)
            ensures
                o == ChildItemSorters::spec_sort_by_locality(*request, *a, *b),
            {
                ChildItemSorters::sort_by_locality(request, a, b)
            }),
        Ghost(leq),
    );
    proof {
        lemma_permutation_of_filter(items@, pe, ranked@);
        if request.nexus_info is None {
            let pf = |item: ChildItem| spec_child_first_create_eligible(*request, item);
            assert(pe =~= pf);
        }
    }
    ranked
}

/// The nexus-child removal ranking never lets both orders of a pair rank
/// `Greater`.
pub proof fn lemma_nexus_child_ranking_antisymmetric(a: NexusChildItem, b: NexusChildItem)
    ensures
        NexusChildSorter::spec_sort(a, b) == Ordering::Greater ==> NexusChildSorter::spec_sort(
            b,
            a,
        ) != Ordering::Greater,
{
}

/// A child backed by a replica spec always ranks after a generic-URI
/// child: non-replica-backed children are removed first.
pub proof fn lemma_nexus_child_ranking(a: NexusChildItem, b: NexusChildItem)
    ensures
        a.replica is None && b.replica is Some ==> NexusChildSorter::spec_sort(a, b)
            == Ordering::Less,
        a.replica is Some && b.replica is None ==> NexusChildSorter::spec_sort(a, b)
            == Ordering::Greater,
{
}

/// Rank a nexus's children for removal: a permutation of the candidates in
/// which no child ranks `Greater` than its successor; the first element is
/// the removal candidate.
pub fn select_nexus_child_to_remove(items: Vec<NexusChildItem>) -> (r: Vec<NexusChildItem>)
    ensures
        r@.len() == items@.len(),
        r@.to_multiset() == items@.to_multiset(),
        forall|i: int|
            0 <= i < r@.len() - 1 ==> NexusChildSorter::spec_sort(#[trigger] r@[i], r@[i + 1])
                != Ordering::Greater,
{
    let ghost c = |a: NexusChildItem, b: NexusChildItem| NexusChildSorter::spec_sort(a, b);
    proof {
        assert forall|a: NexusChildItem, b: NexusChildItem|
            #[trigger] c(a, b) == Ordering::Greater implies c(b, a) != Ordering::Greater by {
            lemma_nexus_child_ranking_antisymmetric(a, b);
        }
    }
    let ranked = rank_candidates(
        items,
        (|a: &NexusChildItem, b: &NexusChildItem| -> (o: Ordering)
            ensures
                o == NexusChildSorter::spec_sort(*a, *b),
            {
                NexusChildSorter::sort(a, b)
            }),
        Ghost(c),
    );
    proof {
        assert forall|i: int|
            0 <= i < ranked@.len() - 1 implies NexusChildSorter::spec_sort(
            #[trigger] ranked@[i],
            ranked@[i + 1],
        ) != Ordering::Greater by {
            assert(c(ranked@[i], ranked@[i + 1]) != Ordering::Greater);
        }
    }
    ranked
}

} // verus!
