//! The batch scheduling model: fixed-size batches over a candidate set,
//! per-candidate failure isolation, running counters, and throughput/ETA
//! accounting.
//!
//! The host process owns the concurrency (one task per candidate inside a
//! batch, a join barrier, the inter-batch cooldown); this module owns every
//! decision: how the candidate set partitions into batches, how each task's
//! result is counted, and when the run halts.

use vstd::prelude::*;
use crate::errors::SyncError;
use crate::query::AppQuery;

verus! {

/// The per-batch candidate sequences of `r`.
pub open spec fn batch_views(r: Seq<Vec<AppQuery>>) -> Seq<Seq<AppQuery>> {
    r.map_values(|b: Vec<AppQuery>| b@)
}

/// The concatenation of a sequence of batches.
pub open spec fn flat(s: Seq<Seq<AppQuery>>) -> Seq<AppQuery>
    decreases s.len(),
{
    if s.len() == 0 {
        Seq::empty()
    } else {
        flat(s.drop_last()) + s.last()
    }
}

/// Partitions `candidates` into batches of exactly `batch_size`, in order,
/// the last batch holding the remainder.  A candidate set of size K yields
/// exactly ⌈K / batch_size⌉ batches.
pub fn plan_batches(candidates: Vec<AppQuery>, batch_size: usize) -> (r: Vec<Vec<AppQuery>>)
    requires
        batch_size > 0,
    ensures
        flat(batch_views(r@)) == candidates@,
        forall|i: int| 0 <= i < r@.len() - 1 ==> (#[trigger] r@[i])@.len() == batch_size,
        r@.len() > 0 ==> 1 <= r@.last()@.len() <= batch_size,
        r@.len() == (candidates@.len() + batch_size - 1) / (batch_size as int),
{
    let n = candidates.len();
    let ghost orig = candidates@;
    let mut r: Vec<Vec<AppQuery>> = Vec::new();
    let mut cur: Vec<AppQuery> = Vec::new();
    let mut candidates = candidates;
    let mut idx: usize = 0;
    proof {
        assert(flat(batch_views(r@)) + cur@ =~= orig.subrange(0, 0));
        assert(candidates@ =~= orig.subrange(0, n as int));
    }
    while idx < n
        invariant
            n == orig.len(),
            idx <= n,
            candidates@ == orig.subrange(idx as int, n as int),
            cur@.len() < batch_size,
            flat(batch_views(r@)) + cur@ == orig.subrange(0, idx as int),
            forall|i: int| 0 <= i < r@.len() ==> (#[trigger] r@[i])@.len() == batch_size,
            idx == r@.len() * batch_size + cur@.len(),
            batch_size > 0,
        decreases n - idx,
    {
        let item = candidates.remove(0);
        proof {
            assert(candidates@ =~= orig.subrange(idx + 1, n as int));
            assert(item == orig[idx as int]);
        }
        let ghost pre_cur = cur@;
        idx = idx + 1;
        cur.push(item);
        proof {
            assert(cur@ == pre_cur.push(item));
            assert(flat(batch_views(r@)) + pre_cur == orig.subrange(0, idx - 1));
            assert((flat(batch_views(r@)) + pre_cur).len() == idx - 1);
            assert(orig.subrange(0, idx as int)[idx - 1] == orig[idx - 1]);
            assert(flat(batch_views(r@)) + cur@ =~= orig.subrange(0, idx as int));
        }
        if cur.len() == batch_size {
            let full = cur;
            cur = Vec::new();
            let ghost oldr = r@;
            r.push(full);
            proof {
                assert(batch_views(r@).drop_last() =~= batch_views(oldr));
                assert(batch_views(r@).last() == full@);
                assert(flat(batch_views(r@)) =~= flat(batch_views(oldr)) + full@);
                assert(flat(batch_views(r@)) + cur@ =~= orig.subrange(0, idx as int));
                assert(r@.len() * batch_size == oldr.len() * batch_size + batch_size)
                    by (nonlinear_arith)
                    requires
                        r@.len() == oldr.len() + 1,
                        batch_size > 0,
                ;
            }
        }
        proof {
            assert(idx == r@.len() * batch_size + cur@.len());
        }
    }
    proof {
        assert(orig.subrange(0, n as int) =~= orig);
    }
    if cur.len() > 0 {
        let ghost oldr = r@;
        let ghost curlen = cur@.len();
        let last = cur;
        r.push(last);
        proof {
            assert(batch_views(r@).drop_last() =~= batch_views(oldr));
            assert(batch_views(r@).last() == last@);
            assert(flat(batch_views(r@)) =~= flat(batch_views(oldr)) + last@);
            assert(forall|i: int|
                0 <= i < r@.len() - 1 ==> (#[trigger] r@[i])@.len() == batch_size);
            assert(n == oldr.len() * batch_size + curlen);
            assert(r@.len() == (n + batch_size - 1) / (batch_size as int)) by (nonlinear_arith)
                requires
                    r@.len() == oldr.len() + 1,
                    n == oldr.len() * batch_size + curlen,
                    0 < curlen < batch_size,
                    batch_size > 0,
            ;
        }
    } else {
        proof {
            assert(flat(batch_views(r@)) =~= orig);
            assert(n == r@.len() * batch_size);
            if r@.len() > 0 {
                assert(r@.last()@.len() == batch_size);
            }
            assert(r@.len() == (n + batch_size - 1) / (batch_size as int)) by (nonlinear_arith)
                requires
                    n == r@.len() * batch_size,
                    batch_size > 0,
            ;
        }
    }
    r
}

/// The counters a run reports.
#[derive(Debug)]
pub struct Summary {
    pub processed: u64,
    pub inserted: u64,
    pub skipped: u64,
    pub failed: u64,
    pub elapsed_millis: u64,
}

/// The accumulating state of one run.
#[derive(Debug)]
pub struct RunState {
    pub processed: u64,
    pub inserted: u64,
    pub skipped: u64,
    pub failed: u64,
    pub batches_done: u64,
    pub halted: bool,
}

/// The counters agree: every processed candidate was counted exactly once.
pub open spec fn run_wf(s: RunState) -> bool {
    s.processed == s.inserted + s.skipped + s.failed
}

/// The relation between a run's state before and after counting one
/// candidate's `result`.
pub open spec fn record_rel(
    pre: RunState,
    result: Result<(bool, bool, bool), SyncError>,
    post: RunState,
) -> bool {
    &&& post.processed == pre.processed + 1
    &&& post.batches_done == pre.batches_done
    &&& match result {
        Result::Ok(flags) => {
            &&& post.halted == pre.halted
            &&& post.failed == pre.failed
            &&& if flags.0 || flags.1 || flags.2 {
                post.inserted == pre.inserted + 1 && post.skipped == pre.skipped
            } else {
                post.skipped == pre.skipped + 1 && post.inserted == pre.inserted
            }
        },
        Result::Err(e) => {
            &&& post.failed == pre.failed + 1
            &&& post.inserted == pre.inserted
            &&& post.skipped == pre.skipped
            &&& post.halted == (pre.halted || e matches SyncError::CredentialsUnavailable)
        },
    }
}

/// However many candidate results a run counts, as long as none of them is
/// the systemic credentials failure the run never halts: task failures in
/// batch i cannot prevent batch i+1 from starting.
pub proof fn lemma_failures_never_halt(
    states: Seq<RunState>,
    results: Seq<Result<(bool, bool, bool), SyncError>>,
)
    requires
        states.len() == results.len() + 1,
        !states[0].halted,
        forall|i: int|
            0 <= i < results.len() ==> record_rel(states[i], #[trigger] results[i], states[i + 1]),
        forall|i: int|
            0 <= i < results.len() ==> !(#[trigger] results[i] matches Result::Err(
                SyncError::CredentialsUnavailable,
            )),
    ensures
        !states.last().halted,
    decreases results.len(),
{
    if results.len() > 0 {
        lemma_failures_never_halt(states.drop_last(), results.drop_last());
        assert(record_rel(states[states.len() - 2], results[results.len() - 1], states[states.len()
            - 1]));
        assert(states.drop_last().last() == states[states.len() - 2]);
    }
}

impl RunState {
    /// A run that has not processed anything yet.
    pub fn new() -> (r: RunState)
        ensures
            r.processed == 0,
            r.inserted == 0,
            r.skipped == 0,
            r.failed == 0,
            r.batches_done == 0,
            !r.halted,
            run_wf(r),
    {
        RunState { processed: 0, inserted: 0, skipped: 0, failed: 0, batches_done: 0,
            halted: false }
    }

    /// Counts one candidate's result.  A candidate counts as inserted when
    /// any of the three ingest flags is set, as skipped when none is, and as
    /// failed on an error.  Only the systemic `CredentialsUnavailable` halts
    /// the run; every other failure is isolated to its candidate, so it can
    /// never prevent the next batch from starting.
    pub fn record_result(&mut self, result: &Result<(bool, bool, bool), SyncError>)
        requires
            run_wf(*old(self)),
            old(self).processed < u64::MAX,
        ensures
            run_wf(*final(self)),
            record_rel(*old(self), *result, *final(self)),
    {
        self.processed = self.processed + 1;
        match result {
            Ok(flags) => {
                if flags.0 || flags.1 || flags.2 {
                    self.inserted = self.inserted + 1;
                } else {
                    self.skipped = self.skipped + 1;
                }
            },
            Err(e) => {
                self.failed = self.failed + 1;
                match e {
                    SyncError::CredentialsUnavailable => {
                        self.halted = true;
                    },
                    _ => {},
                }
            },
        }
    }

    /// Marks one batch as rendezvoused: all its tasks finished, successes and
    /// failures alike, before the next batch may start.
    pub fn finish_batch(&mut self)
        requires
            old(self).batches_done < u64::MAX,
        ensures
            final(self).batches_done == old(self).batches_done + 1,
            final(self).processed == old(self).processed,
            final(self).inserted == old(self).inserted,
            final(self).skipped == old(self).skipped,
            final(self).failed == old(self).failed,
            final(self).halted == old(self).halted,
    {
        self.batches_done = self.batches_done + 1;
    }

    /// Whether the run must stop at the next batch boundary.
    pub fn is_halted(&self) -> (r: bool)
        ensures
            r == self.halted,
    {
        self.halted
    }

    /// The run's summary.  Halting never drops counters: everything counted
    /// before the halt is reported.
    pub fn summary(&self, elapsed_millis: u64) -> (r: Summary)
        ensures
            r.processed == self.processed,
            r.inserted == self.inserted,
            r.skipped == self.skipped,
            r.failed == self.failed,
            r.elapsed_millis == elapsed_millis,
    {
        Summary {
            processed: self.processed,
            inserted: self.inserted,
            skipped: self.skipped,
            failed: self.failed,
            elapsed_millis,
        }
    }
}

/// The estimated total run time from the running average batch duration,
/// capped at `u64::MAX`.
pub open spec fn spec_estimated_total(elapsed: int, done: int, total: int) -> int {
    let est = (elapsed / done) * total;
    if est > u64::MAX {
        u64::MAX as int
    } else {
        est
    }
}

/// Estimated milliseconds remaining for a finite run: the average duration
/// of the finished batches extrapolated to `total_batches`, less what has
/// already elapsed.  Meaningless (None) before the first batch finished; an
/// unbounded run reports throughput instead of calling this.
pub fn estimate_remaining_millis(elapsed_millis: u64, batches_done: u64, total_batches: u64) -> (r:
    Option<u64>)
    ensures
        (r is Some) == (batches_done > 0),
        r matches Some(v) ==> v == if spec_estimated_total(
            elapsed_millis as int,
            batches_done as int,
            total_batches as int,
        ) >= elapsed_millis {
            spec_estimated_total(elapsed_millis as int, batches_done as int, total_batches as int)
                - elapsed_millis
        } else {
            0
        },
{
    if batches_done == 0 {
        return None;
    }
    let avg: u64 = elapsed_millis / batches_done;
    proof {
        assert((avg as int) * (total_batches as int) <= (u64::MAX as int) * (u64::MAX as int))
            by (nonlinear_arith)
            requires
                0 <= avg <= u64::MAX,
                0 <= total_batches <= u64::MAX,
        ;
    }
    let est_wide: u128 = (avg as u128) * (total_batches as u128);
    let est: u64 = if est_wide > u64::MAX as u128 {
        u64::MAX
    } else {
        est_wide as u64
    };
    proof {
        assert(est == spec_estimated_total(
            elapsed_millis as int,
            batches_done as int,
            total_batches as int,
        ));
    }
    if est >= elapsed_millis {
        Some(est - elapsed_millis)
    } else {
        Some(0)
    }
}

} // verus!
