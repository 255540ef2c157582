//! The keyed map underlying the resource state cache: a collection of state
//! records with unique keys, replaced wholesale on each full resync and read
//! through detached copies only, so no caller ever observes later mutation
//! through a value it was handed.

use vstd::prelude::*;

verus! {

/// A state record the cache can hold: it names its key and hands out
/// independent copies of itself.
pub trait ResourceKeyed: Sized {
    /// The record's key, as text.
    spec fn spec_key(self) -> Seq<char>;

    /// Sameness of two records, as the cache's contracts speak of it:
    /// field-for-field, with any sequence fields compared element-wise.
    spec fn same(self, other: Self) -> bool;

    /// Whether the record's key reads as the given text.
    fn key_matches(&self, key: &String) -> (r: bool)
        ensures
            r == (self.spec_key() == key@),
    ;

    /// An independent copy of the record.
    fn duplicate(&self) -> (r: Self)
        ensures
            r.same(*self),
            r.spec_key() == self.spec_key(),
    ;
}

/// Whether the keys of the records are pairwise distinct.
pub open spec fn unique_keys<V: ResourceKeyed>(records: Seq<V>) -> bool {
    forall|i: int, j: int|
        0 <= i < j < records.len() ==> records[i].spec_key() != records[j].spec_key()
}

/// A map from key to state record, holding the latest observed snapshot of
/// one resource class.
pub struct ResourceMap<V: ResourceKeyed> {
    entries: Vec<V>,
}

impl<V: ResourceKeyed> ResourceMap<V> {
    /// The records currently held, in the order they were reported.
    pub closed spec fn records(self) -> Seq<V> {
        self.entries@
    }

    /// The map invariant: no two records share a key.
    pub open spec fn wf(self) -> bool {
        unique_keys(self.records())
    }

    /// An empty map.
    pub fn new() -> (r: Self)
        ensures
            r.records() == Seq::<V>::empty(),
            r.wf(),
    {
        ResourceMap { entries: Vec::new() }
    }

    /// Drop every record.
    pub fn clear(&mut self)
        ensures
            final(self).records() == Seq::<V>::empty(),
            final(self).wf(),
    {
        self.entries.clear();
    }

    /// Fill the cleared map from a full resync report; within one report
    /// every resource appears once.
    pub fn populate(&mut self, records: Vec<V>)
        requires
            old(self).records().len() == 0,
            unique_keys(records@),
        ensures
            final(self).records() == records@,
            final(self).wf(),
    {
        self.entries = records;
    }

    /// Look up the record with the given key, handing out a detached copy
    /// that no concurrent update can reach.
    pub fn get(&self, key: &String) -> (r: Option<V>)
        ensures
            r is Some <==> exists|i: int|
                0 <= i < self.records().len() && (#[trigger] self.records()[i]).spec_key()
                    == key@,
            r is Some ==> exists|i: int|
                0 <= i < self.records().len() && (#[trigger] self.records()[i]).spec_key()
                    == key@ && r->0.same(self.records()[i]),
    {
        let n = self.entries.len();
        let mut i: usize = 0;
        while i < n
            invariant
                n == self.records().len(),
                0 <= i <= n,
                forall|j: int| 0 <= j < i ==> (#[trigger] self.records()[j]).spec_key() != key@,
            decreases n - i,
        {
            if self.entries[i].key_matches(key) {
                return Some(self.entries[i].duplicate());
            }
            i += 1;
        }
        None
    }

    /// Detached copies of every record, in order.
    pub fn to_vec(&self) -> (r: Vec<V>)
        ensures
            r@.len() == self.records().len(),
            forall|i: int|
                0 <= i < r@.len() ==> (#[trigger] r@[i]).same(self.records()[i])
                    && r@[i].spec_key() == self.records()[i].spec_key(),
    {
        let n = self.entries.len();
        let mut out: Vec<V> = Vec::new();
        let mut i: usize = 0;
        while i < n
            invariant
                n == self.records().len(),
                0 <= i <= n,
                out@.len() == i,
                forall|j: int|
                    0 <= j < i ==> (#[trigger] out@[j]).same(self.records()[j])
                        && out@[j].spec_key() == self.records()[j].spec_key(),
            decreases n - i,
        {
            out.push(self.entries[i].duplicate());
            i += 1;
        }
        out
    }
}

} // verus!
