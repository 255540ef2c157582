//! Tests of the nexus transport value types: the controller-id range
//! validation, the NVMe-oF configuration, and the request types.

use std::cmp::Ordering;

use placement_core::errors::{ReplyErrorKind, ResourceKind};
use placement_core::ids::{ChildUri, NexusId, NodeId, PoolId, ReplicaId, VolumeId};
use placement_core::nexus::{
    Child, ChildState, CreateNexus, DestroyNexus, Filter, GetNexuses, Nexus, NexusChild,
    NexusNvmfConfig, NexusOwners, NexusShareProtocol, NexusStatus, NvmfControllerIdRange,
    Protocol, ReplicaUri, ShareNexus, UnshareNexus,
};
use placement_core::pool::{Pool, PoolStatus};

#[test]
fn controller_id_range_rejects_reversed_bounds() {
    let r = NvmfControllerIdRange::new(5, 3);
    assert!(r.is_err());
    let e = r.err().unwrap();
    assert_eq!(e.kind, ReplyErrorKind::InvalidArgument);
    assert_eq!(e.resource, ResourceKind::Nexus);
    assert_eq!(e.source, "nvmf_controller_id_range");
    assert_eq!(e.extra, "5, 3 values don't fall in controller id range");
}

#[test]
fn controller_id_range_accepts_full_range() {
    let r = NvmfControllerIdRange::new(1, 0xffef).unwrap();
    assert_eq!(*r.min(), 1);
    assert_eq!(*r.max(), 0xffef);
}

#[test]
fn controller_id_range_rejects_out_of_bounds() {
    assert!(NvmfControllerIdRange::new(0, 5).is_err());
    assert!(NvmfControllerIdRange::new(1, 0xfff0).is_err());
    assert!(NvmfControllerIdRange::new(7, 7).is_err());
    let e = NvmfControllerIdRange::new(1, 0xfff0).err().unwrap();
    assert_eq!(e.extra, "1, 65520 values don't fall in controller id range");
}

#[test]
fn controller_id_range_default_is_full() {
    let r = NvmfControllerIdRange::default();
    assert_eq!(*r.min(), 1);
    assert_eq!(*r.max(), 0xffef);
}

#[test]
fn controller_id_range_random_min_stays_valid() {
    for _ in 0..64 {
        let r = NvmfControllerIdRange::random_min();
        assert!(1 <= *r.min());
        assert!(*r.min() < *r.max());
        assert_eq!(*r.max(), 0xffef);
    }
}

#[test]
fn nvmf_config_carries_its_parts() {
    let range = NvmfControllerIdRange::new(10, 20).unwrap();
    let config = NexusNvmfConfig::new(range, 7, Some(9));
    assert_eq!(config.min_cntl_id(), 10);
    assert_eq!(config.max_cntl_id(), 20);
    assert_eq!(config.resv_key(), 7);
    assert_eq!(config.reservation_key(), 7);
    assert_eq!(config.preempt_key(), 9);
    assert_eq!(config.preempt_reservation_key(), Some(9));
    assert_eq!(*config.controller_id_range().min(), 10);
}

#[test]
fn nvmf_config_default_has_key_one_and_nothing_to_preempt() {
    let config = NexusNvmfConfig::default();
    assert_eq!(config.min_cntl_id(), 1);
    assert_eq!(config.max_cntl_id(), 0xffef);
    assert_eq!(config.resv_key(), 1);
    assert_eq!(config.preempt_key(), 0);
    assert_eq!(config.preempt_reservation_key(), None);
}

fn sample_nexus() -> Nexus {
    Nexus {
        node: NodeId("node-1".to_string()),
        name: "volume-1".to_string(),
        uuid: NexusId("nexus-1".to_string()),
        size: 1024,
        status: NexusStatus::Online,
        children: vec![
            Child {
                uri: ChildUri("nvmf://n1/a".to_string()),
                state: ChildState::Online,
                rebuild_progress: None,
            },
            Child {
                uri: ChildUri("nvmf://n2/b".to_string()),
                state: ChildState::Degraded,
                rebuild_progress: Some(40),
            },
        ],
        device_uri: String::new(),
        rebuilds: 1,
        share: Protocol::Nvmf,
    }
}

#[test]
fn contains_child_finds_only_present_uris() {
    let nexus = sample_nexus();
    assert!(nexus.contains_child(&ChildUri("nvmf://n1/a".to_string())));
    assert!(nexus.contains_child(&ChildUri("nvmf://n2/b".to_string())));
    assert!(!nexus.contains_child(&ChildUri("nvmf://n3/c".to_string())));
}

#[test]
fn nexus_dup_copies_every_field() {
    let nexus = sample_nexus();
    let copy = nexus.dup();
    assert_eq!(copy.node, nexus.node);
    assert_eq!(copy.name, nexus.name);
    assert_eq!(copy.uuid, nexus.uuid);
    assert_eq!(copy.size, nexus.size);
    assert_eq!(copy.status, nexus.status);
    assert_eq!(copy.children.len(), nexus.children.len());
    assert_eq!(copy.children[1].uri, nexus.children[1].uri);
    assert_eq!(copy.children[1].rebuild_progress, Some(40));
    assert_eq!(copy.share, nexus.share);
}

#[test]
fn create_nexus_name_prefers_the_owner() {
    let node = NodeId("node-1".to_string());
    let uuid = NexusId("nexus-1".to_string());
    let owner = VolumeId("volume-9".to_string());
    let children = [NexusChild::Uri(ChildUri("bdev:///x".to_string()))];
    let owned = CreateNexus::new(&node, &uuid, 4096, &children, true, Some(&owner), None);
    assert_eq!(owned.name(), "volume-9");
    let unowned = CreateNexus::new(&node, &uuid, 4096, &children, false, None, None);
    assert_eq!(unowned.name(), "nexus-1");
    assert_eq!(owned.size, 4096);
    assert!(owned.managed);
    assert_eq!(owned.children.len(), 1);
}

#[test]
fn nexus_info_key_joins_owner_and_uuid() {
    let node = NodeId("node-1".to_string());
    let uuid = NexusId("nexus-1".to_string());
    let owner = VolumeId("volume-9".to_string());
    let owned = CreateNexus::new(&node, &uuid, 4096, &[], true, Some(&owner), None);
    assert_eq!(owned.nexus_info_key(), "volume-9/nexus-1");
    let unowned = CreateNexus::new(&node, &uuid, 4096, &[], false, None, None);
    assert_eq!(unowned.nexus_info_key(), "nexus-1");
}

#[test]
fn destroy_nexus_disowners_follow_the_builders() {
    let destroy = DestroyNexus::new(NodeId("n".to_string()), NexusId("x".to_string()));
    assert!(!destroy.disowners().disown_all());
    assert!(destroy.disowners().volume().is_none());
    let volume = VolumeId("v".to_string());
    let destroy = destroy.with_disown(&volume);
    assert!(!destroy.disowners().disown_all());
    assert_eq!(destroy.disowners().volume().unwrap().0, "v");
    let destroy = destroy.with_disown_all();
    assert!(destroy.disowners().disown_all());
    assert!(destroy.disowners().volume().is_none());
}

#[test]
fn nexus_owners_builders() {
    assert!(NexusOwners::new_disown_all().disown_all());
    assert!(NexusOwners::Unowned.with_disown_all().disown_all());
    let owners = NexusOwners::Volume(VolumeId("v".to_string()));
    assert!(!owners.disown_all());
    assert_eq!(owners.volume().unwrap().0, "v");
}

#[test]
fn nexus_status_from_code() {
    assert_eq!(NexusStatus::from(1), NexusStatus::Online);
    assert_eq!(NexusStatus::from(2), NexusStatus::Degraded);
    assert_eq!(NexusStatus::from(3), NexusStatus::Faulted);
    assert_eq!(NexusStatus::from(0), NexusStatus::Unknown);
    assert_eq!(NexusStatus::from(17), NexusStatus::Unknown);
    assert_eq!(NexusStatus::default(), NexusStatus::Unknown);
}

#[test]
fn share_protocol_conversions() {
    assert_eq!(Protocol::from(NexusShareProtocol::Nvmf), Protocol::Nvmf);
    assert_eq!(Protocol::from(NexusShareProtocol::Iscsi), Protocol::Iscsi);
    assert_eq!(
        NexusShareProtocol::try_from_protocol(Protocol::Nvmf).unwrap(),
        NexusShareProtocol::Nvmf
    );
    assert_eq!(
        NexusShareProtocol::try_from_protocol(Protocol::Iscsi).unwrap(),
        NexusShareProtocol::Iscsi
    );
    let e = NexusShareProtocol::try_from_protocol(Protocol::Unshared).err().unwrap();
    assert_eq!(e.kind, ReplyErrorKind::InvalidArgument);
    assert!(NexusShareProtocol::try_from_protocol(Protocol::Nbd).is_err());
    assert_eq!(NexusShareProtocol::default(), NexusShareProtocol::Nvmf);
}

#[test]
fn protocol_shared_is_everything_but_unshared() {
    assert!(!Protocol::Unshared.shared());
    assert!(Protocol::Nvmf.shared());
    assert!(Protocol::Iscsi.shared());
    assert!(Protocol::Nbd.shared());
    assert_eq!(Protocol::default(), Protocol::Unshared);
}

#[test]
fn nexus_child_uri_comes_from_either_source() {
    let replica_backed = NexusChild::Replica(ReplicaUri {
        uuid: ReplicaId("replica-1".to_string()),
        uri: ChildUri("nvmf://n1/replica-1".to_string()),
    });
    assert_eq!(replica_backed.uri().0, "nvmf://n1/replica-1");
    let generic = NexusChild::Uri(ChildUri("bdev:///x".to_string()));
    assert_eq!(generic.uri().0, "bdev:///x");
}

#[test]
fn get_nexuses_defaults_to_listing_all() {
    let request = GetNexuses::default();
    assert!(matches!(request.filter, Filter::All));
}

#[test]
fn child_health_partial_order() {
    let unknown = ChildState::Unknown;
    let online = ChildState::Online;
    let degraded = ChildState::Degraded;
    let faulted = ChildState::Faulted;
    assert_eq!(unknown.partial_compare(&online), None);
    assert_eq!(online.partial_compare(&unknown), None);
    assert_eq!(unknown.partial_compare(&unknown), Some(Ordering::Equal));
    assert_eq!(faulted.partial_compare(&degraded), Some(Ordering::Less));
    assert_eq!(degraded.partial_compare(&online), Some(Ordering::Less));
    assert_eq!(online.partial_compare(&faulted), Some(Ordering::Greater));
    assert_eq!(degraded.partial_compare(&degraded), Some(Ordering::Equal));
}

#[test]
fn pool_free_space_never_underflows() {
    let mut pool = Pool {
        id: PoolId("pool-1".to_string()),
        node: NodeId("node-1".to_string()),
        disks: Vec::new(),
        status: PoolStatus::Online,
        capacity: 100,
        used: 30,
    };
    assert_eq!(pool.free_space(), 70);
    pool.used = 130;
    assert_eq!(pool.free_space(), 0);
}

#[test]
fn share_and_unshare_requests_carry_the_nexus_identity() {
    let nexus = sample_nexus();
    let share = ShareNexus::from_nexus(&nexus, Some("key".to_string()), NexusShareProtocol::Nvmf);
    assert_eq!(share.node.0, "node-1");
    assert_eq!(share.uuid.0, "nexus-1");
    assert_eq!(share.key.as_deref(), Some("key"));
    let unshare = UnshareNexus::from(&nexus);
    assert_eq!(unshare.node.0, "node-1");
    assert_eq!(unshare.uuid.0, "nexus-1");
    let unshare2 = UnshareNexus::from(share);
    assert_eq!(unshare2.uuid.0, "nexus-1");
    let destroy = DestroyNexus::from(nexus);
    assert_eq!(destroy.uuid.0, "nexus-1");
    assert!(!destroy.disowners().disown_all());
}
