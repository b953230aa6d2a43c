//! The size ledger: a mapping from file identity to a cumulative byte count.
//!
//! Keys are never removed; once an entry exists it only changes through
//! `overwrite` (used once per object, at first encounter of the object
//! itself) or through the saturating increment of `ensure_and_add`.

use std::collections::HashMap;

use vstd::prelude::*;

use crate::identity::FileIdentity;
use crate::model::{entry_or_zero, sat_cap};

verus! {

broadcast use vstd::std_specs::hash::group_hash_axioms;

/// Saturating addition on `u64` values: the exact sum where it fits, the
/// largest `u64` where it does not.
pub fn sat_add(a: u64, b: u64) -> (r: u64)
    ensures
        r == sat_cap(a + b),
{
    if a <= u64::MAX - b {
        a + b
    } else {
        u64::MAX
    }
}

/// The mapping from file identity to cumulative byte count.
pub struct SizeLedger {
    map: HashMap<u64, u64>,
}

impl View for SizeLedger {
    type V = Map<u64, u64>;

    closed spec fn view(&self) -> Map<u64, u64> {
        self.map@
    }
}

impl SizeLedger {
    /// An empty ledger: no identity has been observed yet.
    pub fn new() -> (r: SizeLedger)
        ensures
            r@ == Map::<u64, u64>::empty(),
    {
        SizeLedger { map: HashMap::new() }
    }

    /// Creates or replaces the entry for `id` with exactly `bytes`.
    pub fn overwrite(&mut self, id: FileIdentity, bytes: u64)
        ensures
            final(self)@ == old(self)@.insert(id.0, bytes),
    {
        self.map.insert(id.0, bytes);
    }

    /// Guarantees a zero-initialized entry exists for `id`, then adds
    /// `bytes` to it, saturating at the largest `u64`.
    pub fn ensure_and_add(&mut self, id: FileIdentity, bytes: u64)
        ensures
            final(self)@ == old(self)@.insert(
                id.0,
                sat_cap(entry_or_zero(old(self)@, id.0) + bytes),
            ),
    {
        let cur: u64 = match self.map.get(&id.0) {
            Some(v) => *v,
            None => 0,
        };
        let grown = sat_add(cur, bytes);
        self.map.insert(id.0, grown);
    }

    /// The cumulative byte count recorded for `id`, or nothing where the
    /// identity has not been observed yet.
    pub fn lookup(&self, id: FileIdentity) -> (r: Option<u64>)
        ensures
            self@.contains_key(id.0) ==> r == Some(self@[id.0]),
            !self@.contains_key(id.0) ==> r is None,
    {
        match self.map.get(&id.0) {
            Some(v) => Some(*v),
            None => None,
        }
    }
}

} // verus!
