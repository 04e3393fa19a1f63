use vstd::prelude::*;
use std::collections::HashMap;

verus! {

broadcast use vstd::std_specs::hash::group_hash_axioms;

/// Number of reads that can be in flight at once.
pub const STORE_CAPACITY: usize = 1024;

/// The records after an insert of `tid -> addr` into `m`, a store that holds at most
/// `capacity` records: a record already kept for `tid` is overwritten; a new one is
/// dropped, and nothing changes, when the store is full.
pub open spec fn stored(m: Map<u32, usize>, capacity: nat, tid: u32, addr: usize) -> Map<
    u32,
    usize,
> {
    if m.contains_key(tid) || m.len() < capacity {
        m.insert(tid, addr)
    } else {
        m
    }
}

/// The record kept for `tid` in `m`, if any.
pub open spec fn record_of(m: Map<u32, usize>, tid: u32) -> Option<usize> {
    if m.contains_key(tid) {
        Some(m[tid])
    } else {
        None
    }
}

/// A bounded map from thread id to the address of the buffer of the read in flight on
/// that thread. Inserts never evict: once full, records for new threads are dropped.
pub struct CorrelationStore {
    records: HashMap<u32, usize>,
    capacity: usize,
}

impl View for CorrelationStore {
    type V = Map<u32, usize>;

    closed spec fn view(&self) -> Map<u32, usize> {
        self.records@
    }
}

impl CorrelationStore {
    /// The most records the store holds.
    pub closed spec fn capacity(&self) -> nat {
        self.capacity as nat
    }

    /// The store holds no more records than its capacity.
    pub closed spec fn wf(&self) -> bool {
        &&& self.records@.dom().finite()
        &&& self.records@.len() <= self.capacity
    }

    /// An empty store of `capacity` records.
    pub fn with_capacity(capacity: usize) -> (s: Self)
        ensures
            s.wf(),
            s@ == Map::<u32, usize>::empty(),
            s.capacity() == capacity,
    {
        CorrelationStore { records: HashMap::new(), capacity }
    }

    /// An empty store of the default capacity.
    pub fn new() -> (s: Self)
        ensures
            s.wf(),
            s@ == Map::<u32, usize>::empty(),
            s.capacity() == STORE_CAPACITY,
    {
        Self::with_capacity(STORE_CAPACITY)
    }

    /// Number of records held.
    pub fn len(&self) -> (r: usize)
        requires
            self.wf(),
        ensures
            r == self@.len(),
    {
        self.records.len()
    }

    /// Records `addr` for `tid`, overwriting an earlier record of `tid`. When the store is
    /// full and holds nothing for `tid`, the record is silently dropped.
    pub fn insert(&mut self, tid: u32, addr: usize)
        requires
            old(self).wf(),
        ensures
            final(self).wf(),
            final(self).capacity() == old(self).capacity(),
            final(self)@ == stored(old(self)@, old(self).capacity(), tid, addr),
    {
        if self.records.contains_key(&tid) || self.records.len() < self.capacity {
            self.records.insert(tid, addr);
        }
    }

    /// The record kept for `tid`, copied out; the store is unchanged.
    pub fn get(&self, tid: u32) -> (r: Option<usize>)
        requires
            self.wf(),
        ensures
            r == record_of(self@, tid),
    {
        match self.records.get(&tid) {
            Some(a) => Some(*a),
            None => None,
        }
    }

    /// Drops the record kept for `tid`, if any.
    pub fn remove(&mut self, tid: u32)
        requires
            old(self).wf(),
        ensures
            final(self).wf(),
            final(self).capacity() == old(self).capacity(),
            final(self)@ == old(self)@.remove(tid),
    {
        self.records.remove(&tid);
    }

    /// Looks up the record kept for `tid` and drops it.
    pub fn take(&mut self, tid: u32) -> (r: Option<usize>)
        requires
            old(self).wf(),
        ensures
            final(self).wf(),
            final(self).capacity() == old(self).capacity(),
            r == record_of(old(self)@, tid),
            final(self)@ == old(self)@.remove(tid),
    {
        let r = self.get(tid);
        self.remove(tid);
        r
    }
}

} // verus!
