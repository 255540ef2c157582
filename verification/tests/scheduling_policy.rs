//! Tests of the policy stage libraries and the selection entry points: pool
//! choice for a new replica, child choice at nexus creation, replica choice
//! when growing a volume, and the removal rankings.

use std::cmp::Ordering;

use placement_core::ids::{ChildUri, NexusId, NodeId, PoolId, ReplicaId, VolumeId};
use placement_core::nexus::{Child, ChildState, Protocol};
use placement_core::pool::{NodeState, NodeStatus, Pool, PoolStatus, Replica, ReplicaStatus};
use placement_core::scheduling::nexus::{select_nexus_child_to_remove, select_nexus_children, GetPersistedNexusChildrenCtx};
use placement_core::scheduling::resources::{
    ChildInfo, ChildItem, NexusChildItem, NexusInfo, NexusSpec, PoolItem, PoolWrapper,
    ReplicaItem, ReplicaSpec, VolumeSpec,
};
use placement_core::scheduling::volume::{
    select_pool, select_replica_to_add, select_replica_to_remove, GetSuitablePoolsContext,
    VolumeReplicasForNexusCtx,
};
use placement_core::scheduling::{AddReplicaSorters, ChildSorters, NexusChildSorter};

const GB: u64 = 1024 * 1024 * 1024;

fn pool_item(name: &str, node: &str, free: u64, status: PoolStatus, replicas: usize) -> PoolItem {
    let mut held = Vec::new();
    for i in 0..replicas {
        held.push(Replica {
            id: ReplicaId(format!("{name}-r{i}")),
            node: NodeId(node.to_string()),
            pool: PoolId(name.to_string()),
            size: GB,
            share: Protocol::Unshared,
            uri: ChildUri(format!("bdev:///{name}-r{i}")),
            status: ReplicaStatus::Online,
        });
    }
    PoolItem {
        node: NodeState { id: NodeId(node.to_string()), status: NodeStatus::Online },
        pool: PoolWrapper {
            state: Pool {
                id: PoolId(name.to_string()),
                node: NodeId(node.to_string()),
                disks: vec![format!("/dev/{name}")],
                status,
                capacity: 64 * GB,
                used: 64 * GB - free,
            },
            replicas: held,
        },
    }
}

fn pool_request(size: u64) -> GetSuitablePoolsContext {
    GetSuitablePoolsContext {
        uuid: VolumeId("volume-1".to_string()),
        size,
        allowed_nodes: Vec::new(),
        used_nodes: Vec::new(),
    }
}

#[test]
fn select_pool_keeps_only_the_fitting_healthy_pool() {
    // three pools: faulted with room, healthy but too small, healthy with
    // room; an 8 GB request must leave only the last
    let items = vec![
        pool_item("pool-a", "node-1", 10 * GB, PoolStatus::Faulted, 0),
        pool_item("pool-b", "node-2", 5 * GB, PoolStatus::Online, 0),
        pool_item("pool-c", "node-3", 20 * GB, PoolStatus::Online, 0),
    ];
    let request = pool_request(8 * GB);
    let chosen = select_pool(&request, items);
    assert_eq!(chosen.len(), 1);
    assert_eq!(chosen[0].pool.state.id.0, "pool-c");
}

#[test]
fn select_pool_never_returns_exact_fit_or_unknown_health() {
    let items = vec![
        pool_item("pool-a", "node-1", 8 * GB, PoolStatus::Online, 0),
        pool_item("pool-b", "node-2", 8 * GB + 1, PoolStatus::Online, 0),
        pool_item("pool-c", "node-3", 20 * GB, PoolStatus::Unknown, 0),
    ];
    let chosen = select_pool(&pool_request(8 * GB), items);
    assert_eq!(chosen.len(), 1);
    assert_eq!(chosen[0].pool.state.id.0, "pool-b");
}

#[test]
fn select_pool_honours_node_anti_affinity() {
    // the volume already has a replica on node-1, so pool-a must not come
    // back even though it fits
    let items = vec![
        pool_item("pool-a", "node-1", 20 * GB, PoolStatus::Online, 0),
        pool_item("pool-b", "node-2", 20 * GB, PoolStatus::Online, 0),
    ];
    let mut request = pool_request(GB);
    request.used_nodes = vec![NodeId("node-1".to_string())];
    let chosen = select_pool(&request, items);
    assert_eq!(chosen.len(), 1);
    assert_eq!(chosen[0].pool.state.id.0, "pool-b");
}

#[test]
fn select_pool_honours_allowed_topology() {
    let items = vec![
        pool_item("pool-a", "node-1", 20 * GB, PoolStatus::Online, 0),
        pool_item("pool-b", "node-2", 20 * GB, PoolStatus::Online, 0),
    ];
    let mut request = pool_request(GB);
    request.allowed_nodes = vec![NodeId("node-2".to_string())];
    let chosen = select_pool(&request, items);
    assert_eq!(chosen.len(), 1);
    assert_eq!(chosen[0].pool.state.id.0, "pool-b");
}

#[test]
fn select_pool_skips_offline_nodes() {
    let mut offline = pool_item("pool-a", "node-1", 20 * GB, PoolStatus::Online, 0);
    offline.node.status = NodeStatus::Offline;
    let items = vec![offline, pool_item("pool-b", "node-2", 20 * GB, PoolStatus::Online, 0)];
    let chosen = select_pool(&pool_request(GB), items);
    assert_eq!(chosen.len(), 1);
    assert_eq!(chosen[0].pool.state.id.0, "pool-b");
}

#[test]
fn select_pool_spreads_load_by_replica_count() {
    let items = vec![
        pool_item("pool-a", "node-1", 20 * GB, PoolStatus::Online, 3),
        pool_item("pool-b", "node-2", 20 * GB, PoolStatus::Online, 0),
        pool_item("pool-c", "node-3", 20 * GB, PoolStatus::Online, 1),
    ];
    let chosen = select_pool(&pool_request(GB), items);
    assert_eq!(chosen.len(), 3);
    assert_eq!(chosen[0].pool.state.id.0, "pool-b");
    assert_eq!(chosen[1].pool.state.id.0, "pool-c");
    assert_eq!(chosen[2].pool.state.id.0, "pool-a");
}

fn child_item(node: &str, size: u64, status: ReplicaStatus, pool_free: u64, info: Option<bool>) -> ChildItem {
    let name = format!("replica-{node}");
    ChildItem {
        state: Replica {
            id: ReplicaId(name.clone()),
            node: NodeId(node.to_string()),
            pool: PoolId(format!("pool-{node}")),
            size,
            share: Protocol::Nvmf,
            uri: ChildUri(format!("nvmf://{node}/{name}")),
            status,
        },
        pool: Pool {
            id: PoolId(format!("pool-{node}")),
            node: NodeId(node.to_string()),
            disks: Vec::new(),
            status: PoolStatus::Online,
            capacity: 64 * GB,
            used: 64 * GB - pool_free,
        },
        info: info.map(|healthy| ChildInfo { uuid: ReplicaId(name.clone()), healthy }),
    }
}

fn children_request(target: &str, size: u64, info: Option<NexusInfo>) -> GetPersistedNexusChildrenCtx {
    GetPersistedNexusChildrenCtx {
        nexus_spec: NexusSpec {
            uuid: NexusId("nexus-1".to_string()),
            node: NodeId(target.to_string()),
            size,
        },
        nexus_info: info,
    }
}

#[test]
fn first_creation_takes_every_online_sized_candidate_local_first() {
    // no persisted information: everything online and large enough is
    // eligible, with the candidate local to the target node first
    let items = vec![
        child_item("node-2", 2 * GB, ReplicaStatus::Online, 10 * GB, None),
        child_item("node-1", 2 * GB, ReplicaStatus::Online, 10 * GB, None),
        child_item("node-3", GB, ReplicaStatus::Online, 10 * GB, None),
        child_item("node-4", 2 * GB, ReplicaStatus::Degraded, 10 * GB, None),
    ];
    let request = children_request("node-1", 2 * GB, None);
    let chosen = select_nexus_children(&request, items);
    assert_eq!(chosen.len(), 2);
    assert_eq!(chosen[0].state.node.0, "node-1");
    assert_eq!(chosen[1].state.node.0, "node-2");
}

#[test]
fn subsequent_creation_excludes_candidates_not_recorded_healthy() {
    let info = NexusInfo { clean_shutdown: false, children: Vec::new() };
    let items = vec![
        child_item("node-1", 2 * GB, ReplicaStatus::Online, 10 * GB, Some(false)),
        child_item("node-2", 2 * GB, ReplicaStatus::Online, 10 * GB, Some(true)),
        child_item("node-3", 2 * GB, ReplicaStatus::Online, 10 * GB, None),
    ];
    let request = children_request("node-1", 2 * GB, Some(info));
    let chosen = select_nexus_children(&request, items);
    assert_eq!(chosen.len(), 1);
    assert_eq!(chosen[0].state.node.0, "node-2");
}

fn add_request(nexus_node: &str, size: u64) -> VolumeReplicasForNexusCtx {
    VolumeReplicasForNexusCtx {
        vol_spec: VolumeSpec { uuid: VolumeId("volume-1".to_string()), size },
        nexus_spec: NexusSpec {
            uuid: NexusId("nexus-1".to_string()),
            node: NodeId(nexus_node.to_string()),
            size,
        },
    }
}

#[test]
fn add_replica_locality_dominates_health() {
    // one local but unhealthy candidate, one remote but healthy: the local
    // one must rank first
    let items = vec![
        child_item("node-9", 2 * GB, ReplicaStatus::Online, 10 * GB, Some(true)),
        child_item("node-1", 2 * GB, ReplicaStatus::Online, 10 * GB, Some(false)),
    ];
    let request = add_request("node-1", 2 * GB);
    let chosen = select_replica_to_add(&request, items);
    assert_eq!(chosen.len(), 2);
    assert_eq!(chosen[0].state.node.0, "node-1");
    assert_eq!(chosen[1].state.node.0, "node-9");
}

#[test]
fn add_replica_ranking_is_lexicographic() {
    let request = add_request("node-0", 2 * GB);
    let local_unhealthy = child_item("node-0", 2 * GB, ReplicaStatus::Online, GB, Some(false));
    let remote_healthy_small = child_item("node-1", 2 * GB, ReplicaStatus::Online, GB, Some(true));
    let remote_healthy_big = child_item("node-2", 2 * GB, ReplicaStatus::Online, 9 * GB, Some(true));
    let remote_unhealthy = child_item("node-3", 2 * GB, ReplicaStatus::Online, 20 * GB, None);
    // locality first
    assert_eq!(
        AddReplicaSorters::sort(&request, &local_unhealthy, &remote_healthy_big),
        Ordering::Less
    );
    // then recorded health
    assert_eq!(
        AddReplicaSorters::sort(&request, &remote_healthy_small, &remote_unhealthy),
        Ordering::Less
    );
    // then the larger pool free space
    assert_eq!(
        AddReplicaSorters::sort(&request, &remote_healthy_big, &remote_healthy_small),
        Ordering::Less
    );
    // and the selection orders accordingly
    let items = vec![remote_unhealthy, remote_healthy_small, local_unhealthy, remote_healthy_big];
    let chosen = select_replica_to_add(&request, items);
    assert_eq!(chosen.len(), 4);
    assert_eq!(chosen[0].state.node.0, "node-0");
    assert_eq!(chosen[1].state.node.0, "node-2");
    assert_eq!(chosen[2].state.node.0, "node-1");
    assert_eq!(chosen[3].state.node.0, "node-3");
}

#[test]
fn add_replica_filters_offline_and_small_replicas() {
    let items = vec![
        child_item("node-1", 2 * GB, ReplicaStatus::Degraded, 10 * GB, Some(true)),
        child_item("node-2", GB / 2, ReplicaStatus::Online, 10 * GB, Some(true)),
        child_item("node-3", 2 * GB, ReplicaStatus::Online, 10 * GB, Some(true)),
    ];
    let chosen = select_replica_to_add(&add_request("node-1", 2 * GB), items);
    assert_eq!(chosen.len(), 1);
    assert_eq!(chosen[0].state.node.0, "node-3");
}

fn replica_item(
    name: &str,
    shared: bool,
    attached: Option<(ChildState, Option<u8>)>,
) -> ReplicaItem {
    ReplicaItem {
        replica_spec: ReplicaSpec {
            uuid: ReplicaId(name.to_string()),
            size: GB,
            pool: PoolId(format!("pool-{name}")),
            share: if shared { Protocol::Nvmf } else { Protocol::Unshared },
        },
        child_uri: attached
            .as_ref()
            .map(|_| ChildUri(format!("nvmf://{name}"))),
        child_state: attached.map(|(state, rebuild_progress)| Child {
            uri: ChildUri(format!("nvmf://{name}")),
            state,
            rebuild_progress,
        }),
    }
}

#[test]
fn removal_prefers_the_replica_outside_any_nexus() {
    let detached = replica_item("detached", true, None);
    let attached = replica_item("attached", true, Some((ChildState::Online, None)));
    assert_eq!(ChildSorters::sort(&detached, &attached), Ordering::Less);
    assert_eq!(ChildSorters::sort(&attached, &detached), Ordering::Greater);
    let ranked = select_replica_to_remove(vec![attached, detached]);
    assert_eq!(ranked[0].replica_spec.uuid.0, "detached");
}

#[test]
fn removal_prefers_the_least_rebuilt_child_on_equal_health() {
    let behind = replica_item("behind", true, Some((ChildState::Degraded, Some(10))));
    let ahead = replica_item("ahead", true, Some((ChildState::Degraded, Some(90))));
    assert_eq!(ChildSorters::sort(&behind, &ahead), Ordering::Less);
    assert_eq!(ChildSorters::sort(&ahead, &behind), Ordering::Greater);
    let ranked = select_replica_to_remove(vec![ahead, behind]);
    assert_eq!(ranked[0].replica_spec.uuid.0, "behind");
}

#[test]
fn removal_prefers_the_worse_child_state() {
    let faulted = replica_item("faulted", true, Some((ChildState::Faulted, None)));
    let online = replica_item("online", true, Some((ChildState::Online, None)));
    assert_eq!(ChildSorters::sort(&faulted, &online), Ordering::Less);
    let ranked = select_replica_to_remove(vec![online, faulted]);
    assert_eq!(ranked[0].replica_spec.uuid.0, "faulted");
}

#[test]
fn removal_retains_the_local_replica_on_incomparable_health() {
    // health states Unknown and Online cannot be compared, so locality
    // decides: the shared (non-local) replica goes first
    let local = replica_item("local", false, Some((ChildState::Unknown, None)));
    let shared = replica_item("shared", true, Some((ChildState::Online, None)));
    assert_eq!(ChildSorters::sort(&local, &shared), Ordering::Greater);
    assert_eq!(ChildSorters::sort(&shared, &local), Ordering::Less);
    let ranked = select_replica_to_remove(vec![local, shared]);
    assert_eq!(ranked[0].replica_spec.uuid.0, "shared");
}

fn nexus_child_item(name: &str, replica: bool, state: Option<ChildState>) -> NexusChildItem {
    NexusChildItem {
        child_uri: ChildUri(format!("nvmf://{name}")),
        replica: if replica {
            Some(ReplicaSpec {
                uuid: ReplicaId(name.to_string()),
                size: GB,
                pool: PoolId(format!("pool-{name}")),
                share: Protocol::Nvmf,
            })
        } else {
            None
        },
        child_state: state.map(|s| Child {
            uri: ChildUri(format!("nvmf://{name}")),
            state: s,
            rebuild_progress: None,
        }),
    }
}

#[test]
fn nexus_child_removal_takes_generic_uri_children_first() {
    let generic = nexus_child_item("generic", false, Some(ChildState::Online));
    let backed = nexus_child_item("backed", true, Some(ChildState::Online));
    assert_eq!(NexusChildSorter::sort(&generic, &backed), Ordering::Less);
    assert_eq!(NexusChildSorter::sort(&backed, &generic), Ordering::Greater);
    let ranked = select_nexus_child_to_remove(vec![backed, generic]);
    assert_eq!(ranked[0].child_uri.0, "nvmf://generic");
}

#[test]
fn nexus_child_removal_orders_by_state_then_locality() {
    let faulted = nexus_child_item("faulted", true, Some(ChildState::Faulted));
    let online = nexus_child_item("online", true, Some(ChildState::Online));
    assert_eq!(NexusChildSorter::sort(&faulted, &online), Ordering::Less);
    // equal states: the non-local (shared) child goes first
    let mut local = nexus_child_item("local", true, Some(ChildState::Online));
    local.replica.as_mut().unwrap().share = Protocol::Unshared;
    let shared = nexus_child_item("shared", true, Some(ChildState::Online));
    assert_eq!(NexusChildSorter::sort(&shared, &local), Ordering::Less);
    assert_eq!(NexusChildSorter::sort(&local, &shared), Ordering::Greater);
    // a child with no reported state goes before one with a state
    let stateless = nexus_child_item("stateless", true, None);
    assert_eq!(NexusChildSorter::sort(&stateless, &online), Ordering::Less);
}
