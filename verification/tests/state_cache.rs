//! Tests of the resource state cache: wholesale snapshot replacement,
//! detached reads, and the shared, locked cache.

use placement_core::ids::{ChildUri, NexusId, NodeId, PoolId, ReplicaId};
use placement_core::nexus::{Nexus, NexusStatus, Protocol};
use placement_core::pool::{Pool, PoolStatus, Replica, ReplicaStatus};
use placement_core::states::{ResourceStates, ResourceStatesLocked};

fn pool(name: &str, used: u64) -> Pool {
    Pool {
        id: PoolId(name.to_string()),
        node: NodeId(format!("node-of-{name}")),
        disks: vec![format!("/dev/{name}")],
        status: PoolStatus::Online,
        capacity: 100,
        used,
    }
}

fn replica(name: &str) -> Replica {
    Replica {
        id: ReplicaId(name.to_string()),
        node: NodeId("node-1".to_string()),
        pool: PoolId("pool-1".to_string()),
        size: 10,
        share: Protocol::Unshared,
        uri: ChildUri(format!("bdev:///{name}")),
        status: ReplicaStatus::Online,
    }
}

fn nexus(name: &str) -> Nexus {
    Nexus {
        node: NodeId("node-1".to_string()),
        name: name.to_string(),
        uuid: NexusId(name.to_string()),
        size: 10,
        status: NexusStatus::Online,
        children: Vec::new(),
        device_uri: String::new(),
        rebuilds: 0,
        share: Protocol::Unshared,
    }
}

#[test]
fn pool_refresh_is_read_back_exactly() {
    let mut states = ResourceStates::new();
    states.update_pools(vec![pool("pool-a", 3), pool("pool-b", 7)]);
    let read = states.get_pool_states();
    assert_eq!(read.len(), 2);
    assert_eq!(read[0].id.0, "pool-a");
    assert_eq!(read[0].used, 3);
    assert_eq!(read[0].disks, vec!["/dev/pool-a".to_string()]);
    assert_eq!(read[1].id.0, "pool-b");
    assert_eq!(read[1].used, 7);
}

#[test]
fn pool_refresh_replaces_the_whole_snapshot() {
    let mut states = ResourceStates::new();
    states.update_pools(vec![pool("pool-a", 3), pool("pool-b", 7)]);
    states.update_pools(vec![pool("pool-c", 1)]);
    let read = states.get_pool_states();
    assert_eq!(read.len(), 1);
    assert_eq!(read[0].id.0, "pool-c");
    assert!(states.get_pool_state(&PoolId("pool-a".to_string())).is_none());
    assert!(states.get_pool_state(&PoolId("pool-c".to_string())).is_some());
}

#[test]
fn reads_hand_out_detached_copies() {
    let mut states = ResourceStates::new();
    states.update_pools(vec![pool("pool-a", 3)]);
    let mut read = states.get_pool_states();
    read[0].used = 99;
    let again = states.get_pool_states();
    assert_eq!(again[0].used, 3);
}

#[test]
fn each_class_is_refreshed_independently() {
    let mut states = ResourceStates::new();
    states.update(
        vec![pool("pool-a", 0)],
        vec![replica("replica-a"), replica("replica-b")],
        vec![nexus("nexus-a")],
    );
    assert_eq!(states.get_pool_states().len(), 1);
    assert_eq!(states.get_replica_states().len(), 2);
    assert_eq!(states.get_nexus_states().len(), 1);
    states.update_replicas(vec![replica("replica-c")]);
    assert_eq!(states.get_pool_states().len(), 1);
    let replicas = states.get_replica_states();
    assert_eq!(replicas.len(), 1);
    assert_eq!(replicas[0].id.0, "replica-c");
    let found = states.get_replica_state(&ReplicaId("replica-c".to_string())).unwrap();
    assert_eq!(found.uri.0, "bdev:///replica-c");
    assert!(states.get_replica_state(&ReplicaId("replica-a".to_string())).is_none());
}

#[test]
fn nexus_lookup_finds_by_uuid() {
    let mut states = ResourceStates::new();
    states.update_nexuses(vec![nexus("nexus-a"), nexus("nexus-b")]);
    let found = states.get_nexus_state(&NexusId("nexus-b".to_string())).unwrap();
    assert_eq!(found.name, "nexus-b");
    assert!(states.get_nexus_state(&NexusId("nexus-c".to_string())).is_none());
}

#[test]
fn clear_all_resets_every_class() {
    let mut states = ResourceStates::new();
    states.update(vec![pool("pool-a", 0)], vec![replica("replica-a")], vec![nexus("nexus-a")]);
    states.clear_all();
    assert!(states.get_pool_states().is_empty());
    assert!(states.get_replica_states().is_empty());
    assert!(states.get_nexus_states().is_empty());
}

#[test]
fn default_cache_is_empty() {
    let states = ResourceStates::default();
    assert!(states.get_pool_states().is_empty());
    assert!(states.get_replica_states().is_empty());
    assert!(states.get_nexus_states().is_empty());
}

#[test]
fn locked_cache_serves_concurrent_style_access() {
    let locked = ResourceStatesLocked::new();
    assert!(locked.get_pool_states().is_empty());
    locked.update_pools(vec![pool("pool-a", 3), pool("pool-b", 7)]);
    let read = locked.get_pool_states();
    assert_eq!(read.len(), 2);
    assert_eq!(read[0].id.0, "pool-a");
    locked.update(vec![pool("pool-c", 1)], vec![replica("replica-a")], vec![nexus("nexus-a")]);
    assert_eq!(locked.get_pool_states().len(), 1);
    assert_eq!(locked.get_replica_states().len(), 1);
    assert_eq!(locked.get_nexus_states().len(), 1);
    let found = locked.get_pool_state(&PoolId("pool-c".to_string())).unwrap();
    assert_eq!(found.used, 1);
    assert!(locked.get_nexus_state(&NexusId("nexus-z".to_string())).is_none());
    assert!(locked.get_replica_state(&ReplicaId("replica-a".to_string())).is_some());
    locked.clear_all();
    assert!(locked.get_pool_states().is_empty());
    locked.update_nexuses(vec![nexus("nexus-b")]);
    locked.update_replicas(vec![replica("replica-b")]);
    assert_eq!(locked.get_nexus_states().len(), 1);
    assert_eq!(locked.get_replica_states().len(), 1);
}
