//! The mathematical model of a scan.
//!
//! A scan is a sequence of file events.  Each event stands for one regular
//! file that the directory walk discovered and opened: the file's identity,
//! its length, and the identities of the directories on the path from the
//! file's parent up to the scan root, inclusive.  Folding the events in the
//! order they were aggregated gives the ledger contents and the progress
//! counters; the engine maintains exactly this fold of its recorded history.

use vstd::prelude::*;

use crate::identity::FileIdentity;

verus! {

/// One discovered regular file, as the aggregation stage sees it: its
/// identity, its length in bytes, and the identities of its ancestor
/// directories from the parent up to the scan root.  The file itself is not
/// part of the ancestor chain: its own ledger entry records its length once.
pub ghost struct FileEvent {
    pub id: FileIdentity,
    pub len: u64,
    pub ancestors: Seq<FileIdentity>,
}

/// The observable state of a scan: the ledger, mapping each observed
/// identity to its cumulative byte count, and the two progress counters.
#[verifier::ext_equal]
pub ghost struct ScanModel {
    pub ledger: Map<u64, u64>,
    pub searched: u64,
    pub total_bytes: u64,
}

/// Addition capped at the largest `u64`: counters never wrap, they saturate.
pub open spec fn sat_cap(x: int) -> u64
    recommends
        0 <= x,
{
    if x <= u64::MAX {
        x as u64
    } else {
        u64::MAX
    }
}

/// The byte count recorded under key `k`, or zero where no entry exists yet.
pub open spec fn entry_or_zero(m: Map<u64, u64>, k: u64) -> u64 {
    if m.contains_key(k) {
        m[k]
    } else {
        0
    }
}

/// The ledger after a file's length has been added into every entry of its
/// ancestor chain in turn, creating missing entries at zero first.
pub open spec fn chain_applied(m: Map<u64, u64>, anc: Seq<FileIdentity>, len: u64) -> Map<
    u64,
    u64,
>
    decreases anc.len(),
{
    if anc.len() == 0 {
        m
    } else {
        chain_applied(
            m.insert(anc[0].0, sat_cap(entry_or_zero(m, anc[0].0) + len)),
            anc.skip(1),
            len,
        )
    }
}

/// How often the identity `d` occurs in an ancestor chain.
pub open spec fn chain_count(anc: Seq<FileIdentity>, d: u64) -> nat
    decreases anc.len(),
{
    if anc.len() == 0 {
        0
    } else {
        (if anc[0].0 == d {
            1nat
        } else {
            0nat
        }) + chain_count(anc.skip(1), d)
    }
}

/// The state of a scan that has aggregated nothing yet.
pub open spec fn empty_model() -> ScanModel {
    ScanModel { ledger: Map::empty(), searched: 0, total_bytes: 0 }
}

/// Aggregating one file: overwrite the file's own entry with its length,
/// count the file once, add its length to the running byte total, and add
/// its length into every entry of its ancestor chain.
pub open spec fn scan_step(s: ScanModel, e: FileEvent) -> ScanModel {
    ScanModel {
        ledger: chain_applied(s.ledger.insert(e.id.0, e.len), e.ancestors, e.len),
        searched: sat_cap(s.searched + 1),
        total_bytes: sat_cap(s.total_bytes + e.len),
    }
}

/// The state reached by aggregating a sequence of file events in order,
/// starting from the empty state.
pub open spec fn scan_fold(h: Seq<FileEvent>) -> ScanModel
    decreases h.len(),
{
    if h.len() == 0 {
        empty_model()
    } else {
        scan_step(scan_fold(h.drop_last()), h.last())
    }
}

/// The raw sum of the lengths of all aggregated files, one summand per
/// occurrence: a file reached through two directory entries counts twice.
pub open spec fn sum_lens(h: Seq<FileEvent>) -> int
    decreases h.len(),
{
    if h.len() == 0 {
        0
    } else {
        sum_lens(h.drop_last()) + h.last().len
    }
}

/// What the aggregated files contribute to the entry of the identity `d`:
/// each file's length, once per occurrence of `d` in its ancestor chain.
pub open spec fn dir_total(h: Seq<FileEvent>, d: u64) -> int
    decreases h.len(),
{
    if h.len() == 0 {
        0
    } else {
        dir_total(h.drop_last(), d) + h.last().len * chain_count(h.last().ancestors, d)
    }
}

} // verus!
