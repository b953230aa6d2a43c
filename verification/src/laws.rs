//! The properties the engine is good for, stated and proved over the model.
//!
//! Each public proof function here is a law about a completed or running
//! scan: what the counters count, what a directory's ledger entry sums, and
//! that aggregating two files commutes, so the ledger does not depend on the
//! order in which workers reach the files.

use vstd::prelude::*;

use crate::engine::Search;
use crate::identity::FileIdentity;
use crate::model::{
    chain_applied, chain_count, dir_total, entry_or_zero, sat_cap, scan_fold, scan_step, sum_lens,
    FileEvent, ScanModel,
};

verus! {

/// Capping twice caps once: growing a capped value by a further nonnegative
/// amount reaches the cap of the whole sum.
proof fn lemma_sat_cap_add(x: int, a: int)
    requires
        0 <= x,
        0 <= a,
    ensures
        sat_cap(sat_cap(x) + a) == sat_cap(x + a),
{
}

/// What one ancestor-chain application does to the entry of a single key:
/// the key is present afterwards exactly when it was present before or
/// occurs in the chain, and its value grows by the file's length once per
/// occurrence, capped.
proof fn lemma_chain_applied_at(m: Map<u64, u64>, anc: Seq<FileIdentity>, len: u64, d: u64)
    ensures
        chain_applied(m, anc, len).contains_key(d) <==> (m.contains_key(d) || chain_count(anc, d)
            > 0),
        chain_applied(m, anc, len).contains_key(d) ==> chain_applied(m, anc, len)[d] == sat_cap(
            entry_or_zero(m, d) + len * chain_count(anc, d),
        ),
    decreases anc.len(),
{
    if anc.len() == 0 {
    } else {
        let m1 = m.insert(anc[0].0, sat_cap(entry_or_zero(m, anc[0].0) + len));
        let rest = anc.skip(1);
        lemma_chain_applied_at(m1, rest, len, d);
        assert(len * chain_count(rest, d) >= 0) by (nonlinear_arith);
        if anc[0].0 == d {
            assert(chain_count(anc, d) == 1 + chain_count(rest, d));
            assert(len * chain_count(anc, d) == len + len * chain_count(rest, d))
                by (nonlinear_arith)
                requires
                    chain_count(anc, d) == 1 + chain_count(rest, d),
            ;
            lemma_sat_cap_add(entry_or_zero(m, d) + len, len * chain_count(rest, d));
        } else {
            assert(entry_or_zero(m1, d) == entry_or_zero(m, d));
        }
    }
}

/// After any sequence of aggregations whose count fits in the counter, the
/// `searched` counter equals the number of aggregated files.
proof fn lemma_fold_searched(h: Seq<FileEvent>)
    requires
        h.len() <= u64::MAX,
    ensures
        scan_fold(h).searched == h.len(),
    decreases h.len(),
{
    if h.len() > 0 {
        lemma_fold_searched(h.drop_last());
    }
}

/// The raw sum of file lengths is never negative, and dropping the last
/// event never increases it.
proof fn lemma_sum_lens_nonneg(h: Seq<FileEvent>)
    ensures
        0 <= sum_lens(h),
    decreases h.len(),
{
    if h.len() > 0 {
        lemma_sum_lens_nonneg(h.drop_last());
    }
}

/// After any sequence of aggregations whose raw byte sum fits in the
/// counter, the `total_bytes` counter equals that sum exactly.
proof fn lemma_fold_total(h: Seq<FileEvent>)
    requires
        sum_lens(h) <= u64::MAX,
    ensures
        scan_fold(h).total_bytes == sum_lens(h),
    decreases h.len(),
{
    if h.len() > 0 {
        lemma_sum_lens_nonneg(h.drop_last());
        lemma_fold_total(h.drop_last());
    }
}

/// What the fold leaves in the ledger under one key that is no aggregated
/// file's own identity: the key is present exactly when some event's
/// ancestor chain names it, and its value is the capped sum of the
/// contributions to it.
proof fn lemma_fold_at(h: Seq<FileEvent>, d: u64)
    requires
        forall|i: int| 0 <= i < h.len() ==> (#[trigger] h[i]).id.0 != d,
    ensures
        scan_fold(h).ledger.contains_key(d) <==> (exists|i: int|
            0 <= i < h.len() && chain_count((#[trigger] h[i]).ancestors, d) > 0),
        scan_fold(h).ledger.contains_key(d) ==> scan_fold(h).ledger[d] == sat_cap(dir_total(h, d)),
        0 <= dir_total(h, d),
        !scan_fold(h).ledger.contains_key(d) ==> dir_total(h, d) == 0,
    decreases h.len(),
{
    if h.len() > 0 {
        let hp = h.drop_last();
        let e = h.last();
        assert(forall|i: int| 0 <= i < hp.len() ==> (#[trigger] hp[i]).id.0 != d) by {
            assert(forall|i: int| 0 <= i < hp.len() ==> #[trigger] hp[i] == h[i]);
        }
        lemma_fold_at(hp, d);
        let s = scan_fold(hp);
        let m1 = s.ledger.insert(e.id.0, e.len);
        assert(h[h.len() - 1].id.0 != d);
        assert(entry_or_zero(m1, d) == entry_or_zero(s.ledger, d));
        lemma_chain_applied_at(m1, e.ancestors, e.len, d);
        assert(e.len * chain_count(e.ancestors, d) >= 0) by (nonlinear_arith);
        if s.ledger.contains_key(d) {
            lemma_sat_cap_add(dir_total(hp, d), e.len * chain_count(e.ancestors, d));
        } else {
            assert(dir_total(hp, d) == 0);
        }
        if chain_count(e.ancestors, d) == 0 {
            assert(e.len * chain_count(e.ancestors, d) == 0) by (nonlinear_arith)
                requires
                    chain_count(e.ancestors, d) == 0,
            ;
        }
        if scan_fold(h).ledger.contains_key(d) {
            if chain_count(e.ancestors, d) > 0 {
                assert(chain_count(h[h.len() - 1].ancestors, d) > 0);
            } else {
                assert(s.ledger.contains_key(d));
                let i = choose|i: int|
                    0 <= i < hp.len() && chain_count((#[trigger] hp[i]).ancestors, d) > 0;
                assert(chain_count(h[i].ancestors, d) > 0);
            }
        } else {
            assert(forall|i: int|
                0 <= i < h.len() ==> chain_count((#[trigger] h[i]).ancestors, d) == 0) by {
                assert(forall|i: int| 0 <= i < hp.len() ==> #[trigger] h[i] == hp[i]);
            }
        }
    }
}

/// For a completed scan and any identity `d` that is no aggregated file's
/// own identity — a directory's identity — the ledger entry of `d`, where
/// it exists, equals the sum of the lengths of all files whose ancestor
/// chain names `d`, each occurrence counted exactly once; and where no
/// entry exists, nothing contributed to `d`.
pub proof fn lemma_directory_size(s: &Search, d: FileIdentity)
    requires
        s.wf(),
        s.finished,
        forall|i: int| 0 <= i < s.history@.len() ==> (#[trigger] s.history@[i]).id != d,
        dir_total(s.history@, d.0) <= u64::MAX,
    ensures
        s.model().ledger.contains_key(d.0) ==> s.model().ledger[d.0] == dir_total(s.history@, d.0),
        !s.model().ledger.contains_key(d.0) ==> dir_total(s.history@, d.0) == 0,
{
    assert(forall|i: int| 0 <= i < s.history@.len() ==> (#[trigger] s.history@[i]).id.0 != d.0);
    lemma_fold_at(s.history@, d.0);
}

/// One aggregation only grows the observable state: the counters never
/// decrease, a ledger key once present stays present, and every entry other
/// than the aggregated file's own — which is overwritten with the file's
/// length — never decreases.  After creation an entry is monotonically
/// non-decreasing, the overwrite of the object itself excepted.
pub proof fn lemma_step_monotonic(s: ScanModel, e: FileEvent, k: u64)
    ensures
        scan_step(s, e).searched >= s.searched,
        scan_step(s, e).total_bytes >= s.total_bytes,
        s.ledger.contains_key(k) ==> scan_step(s, e).ledger.contains_key(k),
        k != e.id.0 && s.ledger.contains_key(k) ==> scan_step(s, e).ledger[k] >= s.ledger[k],
{
    lemma_chain_applied_at(s.ledger.insert(e.id.0, e.len), e.ancestors, e.len, k);
    assert(e.len * chain_count(e.ancestors, k) >= 0) by (nonlinear_arith);
}

/// What one key holds after two aggregations, in either order: present in
/// one order exactly when present in the other, with the same value.
proof fn lemma_two_orders_at(s: ScanModel, e1: FileEvent, e2: FileEvent, k: u64)
    requires
        e1.id == e2.id ==> e1.len == e2.len,
        chain_count(e1.ancestors, e2.id.0) == 0,
        chain_count(e2.ancestors, e1.id.0) == 0,
    ensures
        scan_step(scan_step(s, e1), e2).ledger.contains_key(k) == scan_step(
            scan_step(s, e2),
            e1,
        ).ledger.contains_key(k),
        scan_step(scan_step(s, e1), e2).ledger.contains_key(k) ==> scan_step(
            scan_step(s, e1),
            e2,
        ).ledger[k] == scan_step(scan_step(s, e2), e1).ledger[k],
{
    let m_a1 = s.ledger.insert(e1.id.0, e1.len);
    let l_a1 = chain_applied(m_a1, e1.ancestors, e1.len);
    let m_a2 = l_a1.insert(e2.id.0, e2.len);
    let l_a2 = chain_applied(m_a2, e2.ancestors, e2.len);
    let m_b1 = s.ledger.insert(e2.id.0, e2.len);
    let l_b1 = chain_applied(m_b1, e2.ancestors, e2.len);
    let m_b2 = l_b1.insert(e1.id.0, e1.len);
    let l_b2 = chain_applied(m_b2, e1.ancestors, e1.len);
    lemma_chain_applied_at(m_a1, e1.ancestors, e1.len, k);
    lemma_chain_applied_at(m_a2, e2.ancestors, e2.len, k);
    lemma_chain_applied_at(m_b1, e2.ancestors, e2.len, k);
    lemma_chain_applied_at(m_b2, e1.ancestors, e1.len, k);
    let c1 = chain_count(e1.ancestors, k);
    let c2 = chain_count(e2.ancestors, k);
    assert(e1.len * c1 >= 0) by (nonlinear_arith);
    assert(e2.len * c2 >= 0) by (nonlinear_arith);
    if c1 == 0 {
        assert(e1.len * c1 == 0) by (nonlinear_arith)
            requires
                c1 == 0,
        ;
    }
    if c2 == 0 {
        assert(e2.len * c2 == 0) by (nonlinear_arith)
            requires
                c2 == 0,
        ;
    }
    if k == e1.id.0 || k == e2.id.0 {
    } else {
        let v0 = entry_or_zero(s.ledger, k);
        assert(entry_or_zero(m_a1, k) == v0 && entry_or_zero(m_b1, k) == v0);
        assert(entry_or_zero(m_a2, k) == entry_or_zero(l_a1, k));
        assert(entry_or_zero(m_b2, k) == entry_or_zero(l_b1, k));
        assert(entry_or_zero(l_a1, k) == sat_cap(v0 + e1.len * c1));
        assert(entry_or_zero(l_b1, k) == sat_cap(v0 + e2.len * c2));
        lemma_sat_cap_add(v0 + e1.len * c1, e2.len * c2);
        lemma_sat_cap_add(v0 + e2.len * c2, e1.len * c1);
    }
}

/// Aggregating two files commutes.  The two hypotheses hold of real
/// filesystem objects: a regular file's identity never occurs in another
/// file's chain of containing directories, and two occurrences of one
/// identity are the same object and so carry the same length.  Since
/// adjacent exchanges generate every ordering, the ledger and the counters
/// after a scan are the same in whatever order concurrent workers reach the
/// files: no update is lost and no contribution depends on scheduling.
pub proof fn lemma_aggregation_commutes(s: ScanModel, e1: FileEvent, e2: FileEvent)
    requires
        e1.id == e2.id ==> e1.len == e2.len,
        chain_count(e1.ancestors, e2.id.0) == 0,
        chain_count(e2.ancestors, e1.id.0) == 0,
    ensures
        scan_step(scan_step(s, e1), e2) == scan_step(scan_step(s, e2), e1),
{
    let la = scan_step(scan_step(s, e1), e2).ledger;
    let lb = scan_step(scan_step(s, e2), e1).ledger;
    assert forall|k: u64| la.dom().contains(k) == lb.dom().contains(k) by {
        lemma_two_orders_at(s, e1, e2, k);
        assert(la.contains_key(k) == la.dom().contains(k));
        assert(lb.contains_key(k) == lb.dom().contains(k));
    }
    assert(la.dom() =~= lb.dom());
    assert forall|k: u64| la.dom().contains(k) implies la[k] == lb[k] by {
        lemma_two_orders_at(s, e1, e2, k);
        assert(la.contains_key(k) == la.dom().contains(k));
    }
    assert(la =~= lb);
    lemma_sat_cap_add(s.total_bytes + e1.len, e2.len as int);
    lemma_sat_cap_add(s.total_bytes + e2.len, e1.len as int);
}

/// Exchanging two adjacent events of a history leaves the folded state
/// unchanged, under the same hypotheses as the commutation of single
/// steps.  Repeated adjacent exchanges reach every ordering of the same
/// events, so a scan's outcome does not depend on which worker got there
/// first.
pub proof fn lemma_fold_exchange(h1: Seq<FileEvent>, h2: Seq<FileEvent>, i: int)
    requires
        0 <= i,
        i + 1 < h1.len(),
        h2 == h1.update(i, h1[i + 1]).update(i + 1, h1[i]),
        h1[i].id == h1[i + 1].id ==> h1[i].len == h1[i + 1].len,
        chain_count(h1[i].ancestors, h1[i + 1].id.0) == 0,
        chain_count(h1[i + 1].ancestors, h1[i].id.0) == 0,
    ensures
        scan_fold(h1) == scan_fold(h2),
    decreases h1.len(),
{
    let n = h1.len() as int;
    if i + 1 == n - 1 {
        reveal_with_fuel(scan_fold, 3);
        assert(h1.drop_last().drop_last() =~= h2.drop_last().drop_last());
        assert(h1.drop_last().last() == h1[i]);
        assert(h1.last() == h1[i + 1]);
        assert(h2.drop_last().last() == h1[i + 1]);
        assert(h2.last() == h1[i]);
        lemma_aggregation_commutes(scan_fold(h1.drop_last().drop_last()), h1[i], h1[i + 1]);
    } else {
        assert(h1.drop_last()[i] == h1[i]);
        assert(h1.drop_last()[i + 1] == h1[i + 1]);
        assert(h2.drop_last() =~= h1.drop_last().update(i, h1.drop_last()[i + 1]).update(
            i + 1,
            h1.drop_last()[i],
        ));
        lemma_fold_exchange(h1.drop_last(), h2.drop_last(), i);
        assert(h1.last() == h2.last());
        assert(scan_fold(h1) == scan_step(scan_fold(h1.drop_last()), h1.last()));
        assert(scan_fold(h2) == scan_step(scan_fold(h2.drop_last()), h2.last()));
    }
}

/// For a completed scan, `progress().searched` equals the number of regular
/// files that were successfully opened and aggregated: every aggregated
/// file was counted once, and nothing else was.
pub proof fn lemma_searched_counts_files(s: &Search)
    requires
        s.wf(),
        s.finished,
        s.history@.len() <= u64::MAX,
    ensures
        s.searched == s.history@.len(),
{
    lemma_fold_searched(s.history@);
}

/// For a completed scan whose raw byte sum fits in the counter,
/// `progress().total_bytes` equals the sum of the lengths of the aggregated
/// files, counted once per occurrence encountered by the walk: a file
/// reached through two directory entries contributes twice.
pub proof fn lemma_total_bytes_is_sum(s: &Search)
    requires
        s.wf(),
        s.finished,
        sum_lens(s.history@) <= u64::MAX,
    ensures
        s.total_bytes == sum_lens(s.history@),
{
    lemma_fold_total(s.history@);
}

} // verus!
