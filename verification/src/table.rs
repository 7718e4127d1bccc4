//! The correlation table: which identifiers are out, and since when.
//!
//! An entry is made when a query is sent and leaves when its reply is
//! matched. Nothing else removes an entry: one whose reply never comes stays
//! until its identifier is used again and the newer probe takes its place.

use vstd::prelude::*;
use vstd::set_lib::{lemma_int_range, lemma_len_subset, lemma_map_size_bound, set_int_range};
use std::collections::HashMap;

verus! {

broadcast use vstd::std_specs::hash::group_hash_axioms;

/// The number of identifiers, and so of entries that a table can hold.
pub const CAPACITY: usize = 65536;

/// The probes that wait for a reply, each with the time it was sent at.
pub struct CorrelationTable {
    entries: HashMap<u16, u64>,
}

impl View for CorrelationTable {
    type V = Map<u16, u64>;

    closed spec fn view(&self) -> Map<u16, u64> {
        self.entries@
    }
}

impl CorrelationTable {
    /// A table without entries.
    pub fn new() -> (table: CorrelationTable)
        ensures
            table@ == Map::<u16, u64>::empty(),
    {
        CorrelationTable { entries: HashMap::new() }
    }

    /// Notes that the probe `id` went out at `sent_at`. An older entry under
    /// the same identifier is replaced.
    pub fn record(&mut self, id: u16, sent_at: u64)
        ensures
            final(self)@ == old(self)@.insert(id, sent_at),
    {
        self.entries.insert(id, sent_at);
    }

    /// Whether a probe `id` waits for its reply.
    pub fn is_pending(&self, id: u16) -> (pending: bool)
        ensures
            pending == self@.contains_key(id),
    {
        self.entries.contains_key(&id)
    }

    /// Takes the entry of `id` out and hands back the time it was sent at;
    /// leaves the table as it is where `id` is not pending.
    pub fn take(&mut self, id: u16) -> (sent_at: Option<u64>)
        ensures
            sent_at == (if old(self)@.contains_key(id) {
                Some(old(self)@[id])
            } else {
                None
            }),
            final(self)@ == old(self)@.remove(id),
    {
        self.entries.remove(&id)
    }

    /// The number of probes that wait for a reply.
    pub fn len(&self) -> (len: usize)
        ensures
            len == self@.len(),
            len <= CAPACITY,
    {
        proof {
            law_pending_bounded(self@);
        }
        self.entries.len()
    }
}

/// Identifiers are reused, so the table is bounded: it never holds more
/// entries than there are identifiers.
pub proof fn law_pending_bounded(pending: Map<u16, u64>)
    ensures
        pending.dom().finite(),
        pending.len() <= CAPACITY,
{
    let numbers = set_int_range(0, 65536);
    let narrow = |i: int| i as u16;
    let identifiers = numbers.map(narrow);
    lemma_int_range(0, 65536);
    lemma_map_size_bound(numbers, identifiers, narrow);
    assert forall|id: u16| pending.dom().contains(id) implies identifiers.contains(id) by {
        assert(numbers.contains(id as int));
        assert(narrow(id as int) == id);
    }
    lemma_len_subset(pending.dom(), identifiers);
}

} // verus!
