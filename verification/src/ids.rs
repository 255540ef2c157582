//! Identifier newtypes for the resources the control plane manages.
//!
//! Every identifier carries its textual form; two identifiers are the same
//! resource exactly when their texts are equal, which is what `==` means on
//! them both in executable code and in contracts (through the view).

use vstd::prelude::*;

verus! {

/// Identifier of an io-engine node.
#[derive(Debug)]
pub struct NodeId(pub String);

impl View for NodeId {
    type V = Seq<char>;

    open spec fn view(&self) -> Seq<char> {
        self.0@
    }
}

impl NodeId {
    /// Wrap an identifier text.
    pub fn new(id: String) -> (r: Self)
        ensures
            r@ == id@,
    {
        NodeId(id)
    }

    /// An independent copy holding the same identifier text.
    pub fn dup(&self) -> (r: Self)
        ensures
            r == *self,
    {
        NodeId(self.0.clone())
    }
}

impl PartialEq for NodeId {
    fn eq(&self, other: &Self) -> bool {
        self.0 == other.0
    }
}

impl vstd::std_specs::cmp::PartialEqSpecImpl for NodeId {
    open spec fn obeys_eq_spec() -> bool {
        true
    }

    open spec fn eq_spec(&self, other: &Self) -> bool {
        self@ == other@
    }
}

/// Whether the list holds a node identifier with the given text.
pub open spec fn node_list_contains(nodes: Seq<NodeId>, node: Seq<char>) -> bool {
    exists|i: int| 0 <= i < nodes.len() && nodes[i]@ == node
}

/// Whether the list holds the given node identifier.
pub fn contains_node(nodes: &Vec<NodeId>, node: &NodeId) -> (r: bool)
    ensures
        r == node_list_contains(nodes@, node@),
{
    let n = nodes.len();
    let mut i: usize = 0;
    while i < n
        invariant
            n == nodes@.len(),
            0 <= i <= n,
            forall|j: int| 0 <= j < i ==> nodes@[j]@ != node@,
        decreases n - i,
    {
        if nodes[i] == *node {
            return true;
        }
        i += 1;
    }
    false
}

/// Identifier (uuid text) of a nexus.
#[derive(Debug)]
pub struct NexusId(pub String);

impl View for NexusId {
    type V = Seq<char>;

    open spec fn view(&self) -> Seq<char> {
        self.0@
    }
}

impl NexusId {
    /// Wrap an identifier text.
    pub fn new(id: String) -> (r: Self)
        ensures
            r@ == id@,
    {
        NexusId(id)
    }

    /// An independent copy holding the same identifier text.
    pub fn dup(&self) -> (r: Self)
        ensures
            r == *self,
    {
        NexusId(self.0.clone())
    }
}

impl PartialEq for NexusId {
    fn eq(&self, other: &Self) -> bool {
        self.0 == other.0
    }
}

impl vstd::std_specs::cmp::PartialEqSpecImpl for NexusId {
    open spec fn obeys_eq_spec() -> bool {
        true
    }

    open spec fn eq_spec(&self, other: &Self) -> bool {
        self@ == other@
    }
}

/// Identifier (uuid text) of a volume.
#[derive(Debug)]
pub struct VolumeId(pub String);

impl View for VolumeId {
    type V = Seq<char>;

    open spec fn view(&self) -> Seq<char> {
        self.0@
    }
}

impl VolumeId {
    /// Wrap an identifier text.
    pub fn new(id: String) -> (r: Self)
        ensures
            r@ == id@,
    {
        VolumeId(id)
    }

    /// An independent copy holding the same identifier text.
    pub fn dup(&self) -> (r: Self)
        ensures
            r == *self,
    {
        VolumeId(self.0.clone())
    }
}

impl PartialEq for VolumeId {
    fn eq(&self, other: &Self) -> bool {
        self.0 == other.0
    }
}

impl vstd::std_specs::cmp::PartialEqSpecImpl for VolumeId {
    open spec fn obeys_eq_spec() -> bool {
        true
    }

    open spec fn eq_spec(&self, other: &Self) -> bool {
        self@ == other@
    }
}

/// Identifier of a storage pool.
#[derive(Debug)]
pub struct PoolId(pub String);

impl View for PoolId {
    type V = Seq<char>;

    open spec fn view(&self) -> Seq<char> {
        self.0@
    }
}

impl PoolId {
    /// Wrap an identifier text.
    pub fn new(id: String) -> (r: Self)
        ensures
            r@ == id@,
    {
        PoolId(id)
    }

    /// An independent copy holding the same identifier text.
    pub fn dup(&self) -> (r: Self)
        ensures
            r == *self,
    {
        PoolId(self.0.clone())
    }
}

impl PartialEq for PoolId {
    fn eq(&self, other: &Self) -> bool {
        self.0 == other.0
    }
}

impl vstd::std_specs::cmp::PartialEqSpecImpl for PoolId {
    open spec fn obeys_eq_spec() -> bool {
        true
    }

    open spec fn eq_spec(&self, other: &Self) -> bool {
        self@ == other@
    }
}

/// Identifier (uuid text) of a replica.
#[derive(Debug)]
pub struct ReplicaId(pub String);

impl View for ReplicaId {
    type V = Seq<char>;

    open spec fn view(&self) -> Seq<char> {
        self.0@
    }
}

impl ReplicaId {
    /// Wrap an identifier text.
    pub fn new(id: String) -> (r: Self)
        ensures
            r@ == id@,
    {
        ReplicaId(id)
    }

    /// An independent copy holding the same identifier text.
    pub fn dup(&self) -> (r: Self)
        ensures
            r == *self,
    {
        ReplicaId(self.0.clone())
    }
}

impl PartialEq for ReplicaId {
    fn eq(&self, other: &Self) -> bool {
        self.0 == other.0
    }
}

impl vstd::std_specs::cmp::PartialEqSpecImpl for ReplicaId {
    open spec fn obeys_eq_spec() -> bool {
        true
    }

    open spec fn eq_spec(&self, other: &Self) -> bool {
        self@ == other@
    }
}

/// URI through which a nexus child (a replica's data source) is reached.
#[derive(Debug)]
pub struct ChildUri(pub String);

impl View for ChildUri {
    type V = Seq<char>;

    open spec fn view(&self) -> Seq<char> {
        self.0@
    }
}

impl ChildUri {
    /// Wrap a URI text.
    pub fn new(uri: String) -> (r: Self)
        ensures
            r@ == uri@,
    {
        ChildUri(uri)
    }

    /// An independent copy holding the same URI text.
    pub fn dup(&self) -> (r: Self)
        ensures
            r == *self,
    {
        ChildUri(self.0.clone())
    }
}

impl PartialEq for ChildUri {
    fn eq(&self, other: &Self) -> bool {
        self.0 == other.0
    }
}

impl vstd::std_specs::cmp::PartialEqSpecImpl for ChildUri {
    open spec fn obeys_eq_spec() -> bool {
        true
    }

    open spec fn eq_spec(&self, other: &Self) -> bool {
        self@ == other@
    }
}

} // verus!
