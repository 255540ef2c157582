//! Transport value types for nexuses: the replicated virtual block devices
//! assembled from replica children, together with the request types that
//! create, share and destroy them and the NVMe-oF target configuration they
//! carry.

use crate::errors::{ReplyError, ReplyErrorKind, ResourceKind};
use crate::ids::{ChildUri, NexusId, NodeId, VolumeId, ReplicaId};
use crate::text::{dec_seq, u16_to_string};
use core::cmp::Ordering;
use vstd::prelude::*;
use vstd::string::StringExecFns;

verus! {

/// The protocol over which a resource is shared, `Unshared` meaning
/// local-only access.
#[derive(Clone, Copy, Debug, PartialEq, Eq, Structural)]
pub enum Protocol {
    /// Not shared: reachable only from its own node.
    Unshared,
    /// Shared as an NVMe-oF TCP target.
    Nvmf,
    /// Shared as an iSCSI target.
    Iscsi,
    /// Shared as an NBD device.
    Nbd,
}

impl Protocol {
    /// Whether the resource is shared over some protocol.
    pub fn shared(&self) -> (r: bool)
        ensures
            r == (*self != Protocol::Unshared),
    {
        match self {
            Protocol::Unshared => false,
            _ => true,
        }
    }
}

impl Default for Protocol {
    fn default() -> (r: Self)
        ensures
            r == Protocol::Unshared,
    {
        Protocol::Unshared
    }
}

/// Health of one nexus child.
#[derive(Clone, Copy, Debug, PartialEq, Eq, Structural)]
pub enum ChildState {
    /// The state is not known.
    Unknown,
    /// Healthy and in sync.
    Online,
    /// Unhealthy but recoverable: a rebuild can bring it back in sync.
    Degraded,
    /// Broken.
    Faulted,
}

impl ChildState {
    /// Position of a known health state in the order from worst to best.
    pub open spec fn rank(self) -> int {
        match self {
            ChildState::Faulted => 0,
            ChildState::Degraded => 1,
            ChildState::Online => 2,
            ChildState::Unknown => 3,
        }
    }

    /// Partial order on child health: `Faulted < Degraded < Online`, while
    /// `Unknown` is comparable only with itself.
    pub open spec fn spec_partial_cmp(self, other: ChildState) -> Option<Ordering> {
        if self == other {
            Some(Ordering::Equal)
        } else if self == ChildState::Unknown || other == ChildState::Unknown {
            None
        } else if self.rank() < other.rank() {
            Some(Ordering::Less)
        } else {
            Some(Ordering::Greater)
        }
    }

    /// Compare two health states under the partial order above.
    pub fn partial_compare(&self, other: &ChildState) -> (r: Option<Ordering>)
        ensures
            r == self.spec_partial_cmp(*other),
    {
        if *self == *other {
            Some(Ordering::Equal)
        } else if *self == ChildState::Unknown || *other == ChildState::Unknown {
            None
        } else {
            let a = self.rank_exec();
            let b = other.rank_exec();
            if a < b {
                Some(Ordering::Less)
            } else {
                Some(Ordering::Greater)
            }
        }
    }

    /// Executable twin of [`Self::rank`].
    fn rank_exec(&self) -> (r: u8)
        ensures
            r as int == self.rank(),
    {
        match self {
            ChildState::Faulted => 0,
            ChildState::Degraded => 1,
            ChildState::Online => 2,
            ChildState::Unknown => 3,
        }
    }
}

impl Default for ChildState {
    fn default() -> (r: Self)
        ensures
            r == ChildState::Unknown,
    {
        ChildState::Unknown
    }
}

/// Runtime state of one child of a nexus.
#[derive(Debug)]
pub struct Child {
    /// URI of the child's data source.
    pub uri: ChildUri,
    /// Current health.
    pub state: ChildState,
    /// Rebuild progress in percent, while a rebuild is running.
    pub rebuild_progress: Option<u8>,
}

impl Child {
    /// An independent copy.
    pub fn dup(&self) -> (r: Self)
        ensures
            r == *self,
    {
        Child { uri: self.uri.dup(), state: self.state, rebuild_progress: self.rebuild_progress }
    }
}

/// Health of a nexus as derived from its children.
#[derive(Clone, Copy, Debug, PartialEq, Eq, Structural)]
pub enum NexusStatus {
    /// The state is not known.
    Unknown,
    /// Healthy and serving IO.
    Online,
    /// Not fully healthy, but still able to serve IO.
    Degraded,
    /// Broken and unable to serve IO.
    Faulted,
}

impl Default for NexusStatus {
    fn default() -> (r: Self)
        ensures
            r == NexusStatus::Unknown,
    {
        NexusStatus::Unknown
    }
}

impl From<i32> for NexusStatus {
    fn from(src: i32) -> (r: Self) {
        match src {
            1 => NexusStatus::Online,
            2 => NexusStatus::Degraded,
            3 => NexusStatus::Faulted,
            _ => NexusStatus::Unknown,
        }
    }
}

impl vstd::std_specs::convert::FromSpecImpl<i32> for NexusStatus {
    open spec fn obeys_from_spec() -> bool {
        true
    }

    open spec fn from_spec(src: i32) -> Self {
        if src == 1 {
            NexusStatus::Online
        } else if src == 2 {
            NexusStatus::Degraded
        } else if src == 3 {
            NexusStatus::Faulted
        } else {
            NexusStatus::Unknown
        }
    }
}

/// The protocol used to share a nexus with consumers.
#[derive(Clone, Copy, Debug, PartialEq, Eq, Structural)]
pub enum NexusShareProtocol {
    /// Shared as an NVMe-oF TCP target.
    Nvmf,
    /// Shared as an iSCSI target.
    Iscsi,
}

impl Default for NexusShareProtocol {
    fn default() -> (r: Self)
        ensures
            r == NexusShareProtocol::Nvmf,
    {
        NexusShareProtocol::Nvmf
    }
}

impl From<NexusShareProtocol> for Protocol {
    fn from(src: NexusShareProtocol) -> (r: Self) {
        match src {
            NexusShareProtocol::Nvmf => Protocol::Nvmf,
            NexusShareProtocol::Iscsi => Protocol::Iscsi,
        }
    }
}

impl vstd::std_specs::convert::FromSpecImpl<NexusShareProtocol> for Protocol {
    open spec fn obeys_from_spec() -> bool {
        true
    }

    open spec fn from_spec(src: NexusShareProtocol) -> Self {
        match src {
            NexusShareProtocol::Nvmf => Protocol::Nvmf,
            NexusShareProtocol::Iscsi => Protocol::Iscsi,
        }
    }
}

impl NexusShareProtocol {
    /// The share protocol a general protocol value stands for, if any:
    /// a nexus cannot be left unshared, nor shared over `Nbd`.
    pub fn try_from_protocol(value: Protocol) -> (r: Result<Self, ReplyError>)
        ensures
            r is Ok <==> (value == Protocol::Nvmf || value == Protocol::Iscsi),
            value == Protocol::Nvmf ==> r == Ok::<_, ReplyError>(NexusShareProtocol::Nvmf),
            value == Protocol::Iscsi ==> r == Ok::<_, ReplyError>(NexusShareProtocol::Iscsi),
            r is Err ==> r->Err_0.kind == crate::errors::ReplyErrorKind::InvalidArgument
                && r->Err_0.resource == ResourceKind::Nexus,
    {
        match value {
            Protocol::Nvmf => Ok(NexusShareProtocol::Nvmf),
            Protocol::Iscsi => Ok(NexusShareProtocol::Iscsi),
            Protocol::Unshared => Err(ReplyError::invalid_argument(
                ResourceKind::Nexus,
                "share_protocol",
                "Invalid protocol: None".to_owned(),
            )),
            Protocol::Nbd => Err(ReplyError::invalid_argument(
                ResourceKind::Nexus,
                "share_protocol",
                "Invalid protocol: Nbd".to_owned(),
            )),
        }
    }
}

/// Runtime state of a nexus.
#[derive(Debug)]
pub struct Nexus {
    /// The io-engine node hosting the nexus.
    pub node: NodeId,
    /// Name of the nexus.
    pub name: String,
    /// Identifier of the nexus.
    pub uuid: NexusId,
    /// Size of the exposed device in bytes; fixed at creation.
    pub size: u64,
    /// Current health, derived from the children's health.
    pub status: NexusStatus,
    /// The children the nexus replicates over.
    pub children: Vec<Child>,
    /// URI of the exposed device; empty while not published.
    pub device_uri: String,
    /// Number of rebuild jobs currently running.
    pub rebuilds: u32,
    /// Protocol over which the nexus is exposed.
    pub share: Protocol,
}

impl Nexus {
    /// Whether some child of the nexus has the given URI.
    pub fn contains_child(&self, uri: &ChildUri) -> (r: bool)
        ensures
            r == exists|i: int| 0 <= i < self.children@.len() && self.children@[i].uri@ == uri@,
    {
        let n = self.children.len();
        let mut i: usize = 0;
        while i < n
            invariant
                n == self.children@.len(),
                0 <= i <= n,
                forall|j: int| 0 <= j < i ==> self.children@[j].uri@ != uri@,
            decreases n - i,
        {
            if self.children[i].uri == *uri {
                return true;
            }
            i += 1;
        }
        false
    }

    /// Field-wise sameness, with the children compared as sequences.
    pub open spec fn eqv(self, other: Nexus) -> bool {
        &&& self.node == other.node
        &&& self.name == other.name
        &&& self.uuid == other.uuid
        &&& self.size == other.size
        &&& self.status == other.status
        &&& self.children@ == other.children@
        &&& self.device_uri == other.device_uri
        &&& self.rebuilds == other.rebuilds
        &&& self.share == other.share
    }

    /// An independent copy.
    pub fn dup(&self) -> (r: Self)
        ensures
            r.eqv(*self),
    {
        let mut children: Vec<Child> = Vec::new();
        let n = self.children.len();
        let mut i: usize = 0;
        while i < n
            invariant
                n == self.children@.len(),
                0 <= i <= n,
                children@ =~= self.children@.subrange(0, i as int),
            decreases n - i,
        {
            children.push(self.children[i].dup());
            i += 1;
        }
        proof {
            assert(children@ =~= self.children@);
        }
        Nexus {
            node: self.node.dup(),
            name: self.name.clone(),
            uuid: self.uuid.dup(),
            size: self.size,
            status: self.status,
            children,
            device_uri: self.device_uri.clone(),
            rebuilds: self.rebuilds,
            share: self.share,
        }
    }
}

/// Selection of nexuses a listing request asks for.
#[derive(Debug)]
pub enum Filter {
    /// All nexuses.
    All,
    /// The nexuses of one node.
    Node(NodeId),
    /// One nexus.
    Nexus(NexusId),
    /// The nexuses of one volume.
    Volume(VolumeId),
}

impl Default for Filter {
    fn default() -> (r: Self)
        ensures
            r == Filter::All,
    {
        Filter::All
    }
}

/// Request to list nexuses under a filter selection.
#[derive(Debug)]
pub struct GetNexuses {
    /// Which nexuses to list.
    pub filter: Filter,
}

impl Default for GetNexuses {
    fn default() -> (r: Self)
        ensures
            r.filter == Filter::All,
    {
        GetNexuses { filter: Filter::All }
    }
}

/// Smallest NVMe controller id a nexus target may hand to an initiator.
pub const MIN_CONTROLLER_ID: u16 = 1;

/// Largest NVMe controller id a nexus target may hand to an initiator.
pub const MAX_CONTROLLER_ID: u16 = 0xffef;

/// Whether `start ..= end` is an acceptable controller-id range: both bounds
/// within the protocol-defined bounds and the start strictly below the end.
pub open spec fn id_range_valid(start: u16, end: u16) -> bool {
    MIN_CONTROLLER_ID <= start && start < end && end <= MAX_CONTROLLER_ID
}

/// Relies on `rand::random`: draws an arbitrary value of the type; nothing
/// is assumed about which value comes back.
pub assume_specification<T>[ rand::random::<T> ]() -> (r: T)
    where
        rand::distributions::Standard: rand::distributions::Distribution<T>,
;

/// An inclusive range of NVMe controller ids a nexus target may allocate.
///
/// Invariant ([`Self::wf`]): both bounds lie in
/// `MIN_CONTROLLER_ID ..= MAX_CONTROLLER_ID` and the minimum is strictly
/// below the maximum.  [`Self::new`] rejects anything else as a validation
/// error.
#[derive(Clone, Copy, Debug, PartialEq, Eq, Structural)]
pub struct NvmfControllerIdRange {
    start: u16,
    end: u16,
}

impl NvmfControllerIdRange {
    /// The smallest id of the range.
    pub closed spec fn spec_min(self) -> u16 {
        self.start
    }

    /// The largest id of the range.
    pub closed spec fn spec_max(self) -> u16 {
        self.end
    }

    /// The range invariant.
    pub open spec fn wf(self) -> bool {
        id_range_valid(self.spec_min(), self.spec_max())
    }

    /// Minimum controller id.
    pub fn min(&self) -> (r: &u16)
        ensures
            *r == self.spec_min(),
    {
        &self.start
    }

    /// Maximum controller id.
    pub fn max(&self) -> (r: &u16)
        ensures
            *r == self.spec_max(),
    {
        &self.end
    }

    /// Create a range from the provided bounds, rejecting bounds that do not
    /// satisfy the invariant as a validation error tagged to the nexus.
    pub fn new(start: u16, end: u16) -> (r: Result<Self, ReplyError>)
        ensures
            r is Ok <==> id_range_valid(start, end),
            r is Ok ==> r->Ok_0.spec_min() == start && r->Ok_0.spec_max() == end
                && r->Ok_0.wf(),
            r is Err ==> ({
                &&& r->Err_0.kind == ReplyErrorKind::InvalidArgument
                &&& r->Err_0.resource == ResourceKind::Nexus
                &&& r->Err_0.source@ == "nvmf_controller_id_range"@
                &&& r->Err_0.extra@ == dec_seq(start as nat) + ", "@ + dec_seq(end as nat)
                    + " values don't fall in controller id range"@
            }),
    {
        if MIN_CONTROLLER_ID <= start && start <= MAX_CONTROLLER_ID && MIN_CONTROLLER_ID <= end
            && end <= MAX_CONTROLLER_ID && start < end {
            Ok(NvmfControllerIdRange { start, end })
        } else {
            let extra = u16_to_string(start).concat(", ").concat(
                u16_to_string(end).as_str(),
            ).concat(" values don't fall in controller id range");
            Err(ReplyError::invalid_argument(ResourceKind::Nexus, "nvmf_controller_id_range", extra))
        }
    }

    /// Create a range with a random minimum controller id, used to avoid
    /// controller-id collisions between nexuses sharing reservation state.
    /// The minimum is capped below the maximum so the invariant holds for
    /// every drawn value.
    pub fn random_min() -> (r: Self)
        ensures
            r.wf(),
            r.spec_max() == MAX_CONTROLLER_ID,
    {
        let drawn: u16 = rand::random::<u16>();
        let offset: u32 = drawn as u32 + MIN_CONTROLLER_ID as u32;
        let start: u16 = if offset < MAX_CONTROLLER_ID as u32 {
            offset as u16
        } else {
            MAX_CONTROLLER_ID - 1
        };
        NvmfControllerIdRange { start, end: MAX_CONTROLLER_ID }
    }
}

impl Default for NvmfControllerIdRange {
    /// The whole protocol-defined range.
    fn default() -> (r: Self)
        ensures
            r.spec_min() == MIN_CONTROLLER_ID,
            r.spec_max() == MAX_CONTROLLER_ID,
            r.wf(),
    {
        NvmfControllerIdRange { start: MIN_CONTROLLER_ID, end: MAX_CONTROLLER_ID }
    }
}

/// NVMe-oF target configuration of a nexus: the controller-id range it may
/// allocate from and its persistent-reservation keys.
#[derive(Clone, Copy, Debug, PartialEq, Eq, Structural)]
pub struct NexusNvmfConfig {
    /// Limits the controller ids the target hands out.
    controller_id_range: NvmfControllerIdRange,
    /// Persistent reservation key.
    reservation_key: u64,
    /// Reservation key to preempt, if any.
    preempt_reservation_key: Option<u64>,
}

impl NexusNvmfConfig {
    /// The configured controller-id range.
    pub closed spec fn spec_controller_id_range(self) -> NvmfControllerIdRange {
        self.controller_id_range
    }

    /// The configured reservation key.
    pub closed spec fn spec_reservation_key(self) -> u64 {
        self.reservation_key
    }

    /// The configured key to preempt, if any.
    pub closed spec fn spec_preempt_reservation_key(self) -> Option<u64> {
        self.preempt_reservation_key
    }

    /// Minimum controller id the target may use.
    pub fn min_cntl_id(&self) -> (r: u16)
        ensures
            r == self.spec_controller_id_range().spec_min(),
    {
        *self.controller_id_range.min()
    }

    /// Maximum controller id the target may use.
    pub fn max_cntl_id(&self) -> (r: u16)
        ensures
            r == self.spec_controller_id_range().spec_max(),
    {
        *self.controller_id_range.max()
    }

    /// Persistent reservation key.
    pub fn resv_key(&self) -> (r: u64)
        ensures
            r == self.spec_reservation_key(),
    {
        self.reservation_key
    }

    /// Reservation key to preempt, or zero when there is none.
    pub fn preempt_key(&self) -> (r: u64)
        ensures
            r == (if self.spec_preempt_reservation_key() is Some {
                self.spec_preempt_reservation_key()->0
            } else {
                0u64
            }),
    {
        match self.preempt_reservation_key {
            Some(key) => key,
            None => 0,
        }
    }

    /// Create a configuration from its parts.
    pub fn new(
        controller_id_range: NvmfControllerIdRange,
        reservation_key: u64,
        preempt_reservation_key: Option<u64>,
    ) -> (r: Self)
        ensures
            r.spec_controller_id_range() == controller_id_range,
            r.spec_reservation_key() == reservation_key,
            r.spec_preempt_reservation_key() == preempt_reservation_key,
    {
        NexusNvmfConfig { controller_id_range, reservation_key, preempt_reservation_key }
    }

    /// The configured controller-id range.
    pub fn controller_id_range(&self) -> (r: NvmfControllerIdRange)
        ensures
            r == self.spec_controller_id_range(),
    {
        self.controller_id_range
    }

    /// The configured reservation key.
    pub fn reservation_key(&self) -> (r: u64)
        ensures
            r == self.spec_reservation_key(),
    {
        self.reservation_key
    }

    /// The configured key to preempt, if any.
    pub fn preempt_reservation_key(&self) -> (r: Option<u64>)
        ensures
            r == self.spec_preempt_reservation_key(),
    {
        self.preempt_reservation_key
    }
}

impl Default for NexusNvmfConfig {
    /// The whole controller-id range with reservation key 1 and no key to
    /// preempt.  A caller that wants to spread controller ids across nexuses
    /// builds the range with [`NvmfControllerIdRange::random_min`] instead.
    fn default() -> (r: Self)
        ensures
            r.spec_controller_id_range().spec_min() == MIN_CONTROLLER_ID,
            r.spec_controller_id_range().spec_max() == MAX_CONTROLLER_ID,
            r.spec_reservation_key() == 1,
            r.spec_preempt_reservation_key() is None,
    {
        NexusNvmfConfig {
            controller_id_range: NvmfControllerIdRange::default(),
            reservation_key: 1,
            preempt_reservation_key: None,
        }
    }
}

/// A replica named by uuid together with the URI a nexus reaches it at.
#[derive(Debug)]
pub struct ReplicaUri {
    /// The replica's identifier.
    pub uuid: ReplicaId,
    /// The URI the nexus connects to.
    pub uri: ChildUri,
}

impl ReplicaUri {
    /// An independent copy.
    pub fn dup(&self) -> (r: Self)
        ensures
            r == *self,
    {
        ReplicaUri { uuid: self.uuid.dup(), uri: self.uri.dup() }
    }
}

/// One source for a child of a nexus being created: an existing replica, or
/// a generic device URI not backed by a replica.
#[derive(Debug)]
pub enum NexusChild {
    /// An existing replica.
    Replica(ReplicaUri),
    /// A generic device URI.
    Uri(ChildUri),
}

impl NexusChild {
    /// The URI the nexus connects the child at.
    pub open spec fn spec_uri(self) -> Seq<char> {
        match self {
            NexusChild::Replica(replica) => replica.uri@,
            NexusChild::Uri(uri) => uri@,
        }
    }

    /// The URI the nexus connects the child at.
    pub fn uri(&self) -> (r: &ChildUri)
        ensures
            r@ == self.spec_uri(),
    {
        match self {
            NexusChild::Replica(replica) => &replica.uri,
            NexusChild::Uri(uri) => uri,
        }
    }

    /// An independent copy.
    pub fn dup(&self) -> (r: Self)
        ensures
            r == *self,
    {
        match self {
            NexusChild::Replica(replica) => NexusChild::Replica(replica.dup()),
            NexusChild::Uri(uri) => NexusChild::Uri(uri.dup()),
        }
    }
}

/// Request to create a nexus.
#[derive(Debug)]
pub struct CreateNexus {
    /// The io-engine node to create the nexus on.
    pub node: NodeId,
    /// The identifier the nexus will get.
    pub uuid: NexusId,
    /// Size of the device in bytes.
    pub size: u64,
    /// The sources of the initial children.
    pub children: Vec<NexusChild>,
    /// Whether the nexus is managed by the control plane.
    pub managed: bool,
    /// The volume owning the nexus, if any.
    pub owner: Option<VolumeId>,
    /// NVMe-oF target configuration, if the nexus is to carry one.
    pub config: Option<NexusNvmfConfig>,
}

impl CreateNexus {
    /// Create a request from its parts.
    pub fn new(
        node: &NodeId,
        uuid: &NexusId,
        size: u64,
        children: &[NexusChild],
        managed: bool,
        owner: Option<&VolumeId>,
        config: Option<NexusNvmfConfig>,
    ) -> (r: Self)
        ensures
            r.node == *node,
            r.uuid == *uuid,
            r.size == size,
            r.children@ == children@,
            r.managed == managed,
            owner is Some ==> r.owner == Some(*owner->0),
            owner is None ==> r.owner is None,
            r.config == config,
    {
        let mut children_owned: Vec<NexusChild> = Vec::new();
        let n = children.len();
        let mut i: usize = 0;
        while i < n
            invariant
                n == children@.len(),
                0 <= i <= n,
                children_owned@ =~= children@.subrange(0, i as int),
            decreases n - i,
        {
            children_owned.push(children[i].dup());
            i += 1;
        }
        proof {
            assert(children_owned@ =~= children@);
        }
        let owner_owned = match owner {
            Some(volume) => Some(volume.dup()),
            None => None,
        };
        CreateNexus {
            node: node.dup(),
            uuid: uuid.dup(),
            size,
            children: children_owned,
            managed,
            owner: owner_owned,
            config,
        }
    }

    /// Name of the nexus: the owning volume's identifier when the nexus is
    /// part of a volume, its own identifier otherwise.
    pub fn name(&self) -> (r: String)
        ensures
            r@ == (if self.owner is Some {
                self.owner->0@
            } else {
                self.uuid@
            }),
    {
        match &self.owner {
            Some(volume) => volume.0.clone(),
            None => self.uuid.0.clone(),
        }
    }

    /// The key under which the io-engine persists the nexus information:
    /// the nexus identifier, prefixed by the owning volume's identifier and
    /// a separating slash when the nexus is part of a volume.
    pub fn nexus_info_key(&self) -> (r: String)
        ensures
            r@ == (if self.owner is Some {
                self.owner->0@ + "/"@ + self.uuid@
            } else {
                self.uuid@
            }),
    {
        match &self.owner {
            Some(volume) => volume.0.clone().concat("/").concat(self.uuid.0.as_str()),
            None => self.uuid.0.clone(),
        }
    }
}

/// The owners a destroy request strips from a nexus: none, one volume, or
/// every owner.
#[derive(Debug)]
pub enum NexusOwners {
    /// Disown nobody.
    Unowned,
    /// Disown one volume.
    Volume(VolumeId),
    /// Disown every owner.
    All,
}

impl NexusOwners {
    /// Create a selection that disowns every owner.
    pub fn new_disown_all() -> (r: Self)
        ensures
            r == NexusOwners::All,
    {
        NexusOwners::All
    }

    /// Turn the selection into one that disowns every owner.
    pub fn with_disown_all(self) -> (r: Self)
        ensures
            r == NexusOwners::All,
    {
        NexusOwners::All
    }

    /// Whether every owner is disowned.
    pub fn disown_all(&self) -> (r: bool)
        ensures
            r <==> *self is All,
    {
        match self {
            NexusOwners::Unowned => false,
            NexusOwners::Volume(_) => false,
            NexusOwners::All => true,
        }
    }

    /// The volume owner selected for disowning, if one is.
    pub fn volume(&self) -> (r: Option<&VolumeId>)
        ensures
            r is Some <==> *self is Volume,
            *self is Volume ==> *r->0 == self->Volume_0,
    {
        match self {
            NexusOwners::Unowned => None,
            NexusOwners::Volume(volume) => Some(volume),
            NexusOwners::All => None,
        }
    }
}

impl Default for NexusOwners {
    fn default() -> (r: Self)
        ensures
            r == NexusOwners::Unowned,
    {
        NexusOwners::Unowned
    }
}

/// Request to destroy a nexus.
#[derive(Debug)]
pub struct DestroyNexus {
    /// The io-engine node hosting the nexus.
    pub node: NodeId,
    /// The identifier of the nexus.
    pub uuid: NexusId,
    /// Which owners to strip from the nexus.
    pub disowners: NexusOwners,
}

impl DestroyNexus {
    /// Which owners the request strips from the nexus.
    pub open spec fn spec_disowners(self) -> NexusOwners {
        self.disowners
    }

    /// Create a request that destroys the nexus without disowning anybody.
    pub fn new(node: NodeId, uuid: NexusId) -> (r: Self)
        ensures
            r.node == node,
            r.uuid == uuid,
            r.spec_disowners() == NexusOwners::Unowned,
    {
        DestroyNexus { node, uuid, disowners: NexusOwners::Unowned }
    }

    /// The same request, set to disown every owner.
    pub fn with_disown_all(self) -> (r: Self)
        ensures
            r.node == self.node,
            r.uuid == self.uuid,
            r.spec_disowners() == NexusOwners::All,
    {
        DestroyNexus { node: self.node, uuid: self.uuid, disowners: NexusOwners::All }
    }

    /// The same request, set to disown one volume owner.
    pub fn with_disown(self, volume: &VolumeId) -> (r: Self)
        ensures
            r.node == self.node,
            r.uuid == self.uuid,
            r.spec_disowners() == NexusOwners::Volume(*volume),
    {
        DestroyNexus {
            node: self.node,
            uuid: self.uuid,
            disowners: NexusOwners::Volume(volume.dup()),
        }
    }

    /// Which owners the request strips from the nexus.
    pub fn disowners(&self) -> (r: &NexusOwners)
        ensures
            *r == self.spec_disowners(),
    {
        &self.disowners
    }
}

impl From<Nexus> for DestroyNexus {
    fn from(nexus: Nexus) -> (r: Self) {
        DestroyNexus { node: nexus.node, uuid: nexus.uuid, disowners: NexusOwners::Unowned }
    }
}

impl vstd::std_specs::convert::FromSpecImpl<Nexus> for DestroyNexus {
    open spec fn obeys_from_spec() -> bool {
        true
    }

    open spec fn from_spec(nexus: Nexus) -> Self {
        DestroyNexus { node: nexus.node, uuid: nexus.uuid, disowners: NexusOwners::Unowned }
    }
}

/// Request to share a nexus over a protocol.
#[derive(Debug)]
pub struct ShareNexus {
    /// The io-engine node hosting the nexus.
    pub node: NodeId,
    /// The identifier of the nexus.
    pub uuid: NexusId,
    /// Encryption key, if the share is to be encrypted.
    pub key: Option<String>,
    /// The protocol to share over.
    pub protocol: NexusShareProtocol,
}

impl ShareNexus {
    /// A share request for the given nexus.
    pub fn from_nexus(nexus: &Nexus, key: Option<String>, protocol: NexusShareProtocol) -> (r:
        Self)
        ensures
            r.node == nexus.node,
            r.uuid == nexus.uuid,
            r.key == key,
            r.protocol == protocol,
    {
        ShareNexus { node: nexus.node.dup(), uuid: nexus.uuid.dup(), key, protocol }
    }
}

/// Request to withdraw a nexus from its share protocol.
#[derive(Debug)]
pub struct UnshareNexus {
    /// The io-engine node hosting the nexus.
    pub node: NodeId,
    /// The identifier of the nexus.
    pub uuid: NexusId,
}

impl From<&Nexus> for UnshareNexus {
    fn from(nexus: &Nexus) -> (r: Self) {
        UnshareNexus { node: nexus.node.dup(), uuid: nexus.uuid.dup() }
    }
}

impl vstd::std_specs::convert::FromSpecImpl<&Nexus> for UnshareNexus {
    open spec fn obeys_from_spec() -> bool {
        true
    }

    open spec fn from_spec(nexus: &Nexus) -> Self {
        UnshareNexus { node: nexus.node, uuid: nexus.uuid }
    }
}

impl From<ShareNexus> for UnshareNexus {
    fn from(share: ShareNexus) -> (r: Self) {
        UnshareNexus { node: share.node, uuid: share.uuid }
    }
}

impl vstd::std_specs::convert::FromSpecImpl<ShareNexus> for UnshareNexus {
    open spec fn obeys_from_spec() -> bool {
        true
    }

    open spec fn from_spec(share: ShareNexus) -> Self {
        UnshareNexus { node: share.node, uuid: share.uuid }
    }
}

} // verus!
