//! The scan engine: lifecycle, progress counters, and per-file aggregation.
//!
//! The engine holds the ledger and the counters, and records as ghost state
//! the sequence of file events it has aggregated.  Its well-formedness
//! invariant says that the observable state is exactly the fold of that
//! history, so every contract over the history carries over to the state a
//! caller can read.  Directory discovery and metadata reads stay with the
//! caller: the engine is handed each regular file as plain values.

use vstd::prelude::*;

use crate::identity::FileIdentity;
use crate::ledger::{sat_add, SizeLedger};
use crate::model::{chain_applied, empty_model, scan_fold, scan_step, FileEvent, ScanModel};

verus! {

/// Returned by `go` when the scan has already been started: an engine runs
/// its scan once, with no restart and no concurrent second run.
#[derive(Clone, Copy, Debug, PartialEq, Eq, Structural)]
pub struct AlreadyRunningError;

/// A snapshot of the progress counters: how many regular files have been
/// aggregated, and the raw sum of their lengths.
#[derive(Clone, Copy, Debug, PartialEq, Eq, Structural)]
pub struct Progress {
    pub searched: u64,
    pub total_bytes: u64,
}

/// The command-line surface of a scan: the root path to walk, and nothing
/// else.
pub struct Opt {
    pub root: String,
}

/// The scanning-and-aggregation engine for one directory tree.
pub struct Search {
    /// The path the scan starts from.
    pub root: String,
    /// The identity-to-cumulative-size ledger.
    pub ledger: SizeLedger,
    /// How many regular files have been aggregated.
    pub searched: u64,
    /// The raw sum of the lengths of the aggregated files.
    pub total_bytes: u64,
    /// Becomes true exactly once, when the scan is started.
    pub started: bool,
    /// Becomes true exactly once, when the scan has fully drained.
    pub finished: bool,
    /// The file events aggregated so far, in order.
    pub history: Ghost<Seq<FileEvent>>,
}

impl Search {
    /// The mathematical state of the engine: ledger contents and counters.
    pub open spec fn model(&self) -> ScanModel {
        ScanModel { ledger: self.ledger@, searched: self.searched, total_bytes: self.total_bytes }
    }

    /// Well-formedness: the observable state is exactly the fold of the
    /// recorded history, and the lifecycle flags are consistent.
    pub open spec fn wf(&self) -> bool {
        &&& self.model() == scan_fold(self.history@)
        &&& !self.started ==> self.history@.len() == 0
        &&& self.finished ==> self.started
    }

    /// A fresh engine for the given root: empty ledger, zero counters, not
    /// started.  No filesystem work happens here.
    pub fn new(root: String) -> (s: Search)
        ensures
            s.wf(),
            !s.started,
            !s.finished,
            s.history@ == Seq::<FileEvent>::empty(),
            s.model() == empty_model(),
            s.root == root,
    {
        Search {
            root,
            ledger: SizeLedger::new(),
            searched: 0,
            total_bytes: 0,
            started: false,
            finished: false,
            history: Ghost(Seq::empty()),
        }
    }

    /// Starts the scan: the one `NotStarted -> Running` transition.  A
    /// second call finds the engine already started and fails, changing
    /// nothing; so a scan is never run twice and no entry is ever counted
    /// by two runs.
    pub fn go(&mut self) -> (r: Result<(), AlreadyRunningError>)
        requires
            old(self).wf(),
        ensures
            final(self).wf(),
            old(self).started ==> r is Err && *final(self) == *old(self),
            !old(self).started ==> {
                &&& r is Ok
                &&& final(self).started
                &&& !final(self).finished
                &&& final(self).history == old(self).history
                &&& final(self).model() == old(self).model()
                &&& final(self).root == old(self).root
            },
    {
        if self.started {
            Err(AlreadyRunningError)
        } else {
            self.started = true;
            Ok(())
        }
    }

    /// The per-file unit of work.  `id` and `len` are the discovered file's
    /// identity and length; `ancestors` holds the identities of its
    /// containing directories from the parent up to the scan root, cut short
    /// at the first one that could not be read.  The file's own entry is
    /// overwritten with `len`, both counters grow, and `len` is added into
    /// every entry of the chain.
    pub fn aggregate_file(&mut self, id: FileIdentity, len: u64, ancestors: &Vec<FileIdentity>)
        requires
            old(self).wf(),
            old(self).started,
            !old(self).finished,
        ensures
            final(self).wf(),
            final(self).started,
            !final(self).finished,
            final(self).root == old(self).root,
            final(self).history@ == old(self).history@.push(
                (FileEvent { id, len, ancestors: ancestors@ }),
            ),
            final(self).model() == scan_step(
                old(self).model(),
                (FileEvent { id, len, ancestors: ancestors@ }),
            ),
    {
        let ghost ev = FileEvent { id, len, ancestors: ancestors@ };
        self.ledger.overwrite(id, len);
        self.searched = sat_add(self.searched, 1);
        self.total_bytes = sat_add(self.total_bytes, len);
        let ghost m0 = self.ledger@;
        let ghost s1 = self.searched;
        let ghost t1 = self.total_bytes;
        proof {
            assert(ancestors@.skip(0) =~= ancestors@);
        }
        let mut i: usize = 0;
        while i < ancestors.len()
            invariant
                old(self).wf(),
                old(self).started,
                !old(self).finished,
                i <= ancestors.len(),
                self.searched == s1,
                self.total_bytes == t1,
                self.started == old(self).started,
                self.finished == old(self).finished,
                self.root == old(self).root,
                self.history == old(self).history,
                chain_applied(m0, ancestors@, len) == chain_applied(
                    self.ledger@,
                    ancestors@.skip(i as int),
                    len,
                ),
            decreases ancestors.len() - i,
        {
            proof {
                assert(ancestors@.skip(i as int)[0] == ancestors@[i as int]);
                assert(ancestors@.skip(i as int).skip(1) =~= ancestors@.skip(i as int + 1));
            }
            self.ledger.ensure_and_add(ancestors[i], len);
            i = i + 1;
        }
        proof {
            assert(ancestors@.skip(ancestors@.len() as int) =~= Seq::<FileIdentity>::empty());
            assert(self.ledger@ == chain_applied(m0, ancestors@, len));
            let h = old(self).history@;
            assert(h.push(ev).drop_last() =~= h);
            assert(h.push(ev).last() == ev);
        }
        self.history = Ghost(self.history@.push(ev));
    }

    /// Marks the scan as fully drained: the one `Running -> Finished`
    /// transition.  Nothing else changes, and nothing changes afterwards.
    pub fn finish(&mut self)
        requires
            old(self).wf(),
            old(self).started,
            !old(self).finished,
        ensures
            final(self).wf(),
            final(self).started,
            final(self).finished,
            final(self).history == old(self).history,
            final(self).model() == old(self).model(),
            final(self).root == old(self).root,
    {
        self.finished = true;
    }

    /// Whether the scan has fully drained.  Non-blocking; false before
    /// `go` and while the scan runs.
    pub fn is_finished(&self) -> (r: bool)
        ensures
            r == self.finished,
    {
        self.finished
    }

    /// A snapshot of the monotonic progress counters.  May be read at any
    /// time: zero before `go`, the final stable values once finished.
    pub fn progress(&self) -> (p: Progress)
        ensures
            p.searched == self.searched,
            p.total_bytes == self.total_bytes,
    {
        Progress { searched: self.searched, total_bytes: self.total_bytes }
    }

    /// The cumulative byte count recorded for `id`, or nothing where that
    /// identity has not been observed yet.  Mid-scan this may be a partial
    /// value; once finished it is stable.
    pub fn lookup_size(&self, id: FileIdentity) -> (r: Option<u64>)
        ensures
            self.model().ledger.contains_key(id.0) ==> r == Some(self.model().ledger[id.0]),
            !self.model().ledger.contains_key(id.0) ==> r is None,
    {
        self.ledger.lookup(id)
    }
}

} // verus!
