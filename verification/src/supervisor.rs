//! The multi-feed supervisor's aggregation logic.
//!
//! The runtime spawns one watcher per configured feed and collects their
//! completions in whatever order they arrive. The [`Supervisor`] decides
//! what those completions mean: the first failure trips the abort
//! broadcast, and the aggregate result is success exactly when no watcher
//! failed.

use vstd::prelude::*;

use crate::error::{Error, WatcherError};

verus! {

/// Aggregates watcher completions into one result and one abort decision.
#[derive(Debug, Clone, Copy, PartialEq, Eq, Structural)]
pub struct Supervisor {
    /// How many watchers were spawned.
    pub total: usize,
    /// How many have completed so far.
    pub completed: usize,
    /// Whether any completion so far was a failure.
    pub failed: bool,
}

/// The supervisor state after one more completion with the given outcome.
pub open spec fn record_one(s: Supervisor, ok: bool) -> Supervisor {
    Supervisor { completed: (s.completed + 1) as usize, failed: s.failed || !ok, ..s }
}

/// The supervisor state after recording each outcome in turn.
pub open spec fn record_all(s: Supervisor, outcomes: Seq<bool>) -> Supervisor
    decreases outcomes.len(),
{
    if outcomes.len() == 0 {
        s
    } else {
        record_all(record_one(s, outcomes[0]), outcomes.skip(1))
    }
}

impl Supervisor {
    /// A supervisor over `total` watchers, none completed yet.
    pub fn new(total: usize) -> (s: Supervisor)
        ensures
            s == (Supervisor { total, completed: 0, failed: false }),
    {
        Supervisor { total, completed: 0, failed: false }
    }

    /// Records one watcher's completion. Returns whether the runtime must
    /// broadcast the abort signal now — true exactly on the first failure.
    pub fn on_outcome(&mut self, ok: bool) -> (abort: bool)
        requires
            old(self).completed < old(self).total,
        ensures
            *final(self) == record_one(*old(self), ok),
            abort == (!ok && !old(self).failed),
    {
        let abort = !ok && !self.failed;
        self.completed = self.completed + 1;
        self.failed = self.failed || !ok;
        abort
    }

    /// Whether every watcher has completed.
    pub fn is_done(&self) -> (r: bool)
        ensures
            r == (self.completed == self.total),
    {
        self.completed == self.total
    }

    /// The aggregate result: success exactly when no watcher failed.
    pub fn aggregate(&self) -> (r: Result<(), Error>)
        ensures
            r is Ok <==> !self.failed,
            r matches Err(e) ==> e == Error::Watcher(WatcherError::Failed),
    {
        if self.failed {
            Err(Error::Watcher(WatcherError::Failed))
        } else {
            Ok(())
        }
    }
}

/// The aggregate result is failure exactly when some completion failed —
/// however the completions were ordered.
pub proof fn lemma_aggregate_fails_iff_any_failed(s: Supervisor, outcomes: Seq<bool>)
    ensures
        record_all(s, outcomes).failed <==> (s.failed || exists|i: int|
            0 <= i < outcomes.len() && !outcomes[i]),
        record_all(s, outcomes).total == s.total,
    decreases outcomes.len(),
{
    if outcomes.len() > 0 {
        let s1 = record_one(s, outcomes[0]);
        let rest = outcomes.skip(1);
        lemma_aggregate_fails_iff_any_failed(s1, rest);
        if record_all(s, outcomes).failed && !s1.failed {
            let i = choose|i: int| 0 <= i < rest.len() && !rest[i];
            assert(outcomes[i + 1] == rest[i]);
            assert(!outcomes[i + 1]);
        }
        if !s.failed && (exists|i: int| 0 <= i < outcomes.len() && !outcomes[i]) {
            let i = choose|i: int| 0 <= i < outcomes.len() && !outcomes[i];
            if i > 0 {
                assert(rest[i - 1] == outcomes[i]);
                assert(exists|j: int| 0 <= j < rest.len() && !rest[j]);
            }
        }
    }
}

/// The abort broadcast is requested exactly once, at the first failing
/// completion: when an outcome fails and every outcome before it
/// succeeded. From that point on the aggregate is failure for good.
pub proof fn lemma_abort_at_first_failure(s: Supervisor, outcomes: Seq<bool>, i: int)
    requires
        !s.failed,
        0 <= i < outcomes.len(),
    ensures
        ({
            let before = record_all(s, outcomes.subrange(0, i));
            (!outcomes[i] && !before.failed) <==> (!outcomes[i] && forall|j: int|
                0 <= j < i ==> outcomes[j])
        }),
{
    let prefix = outcomes.subrange(0, i);
    lemma_aggregate_fails_iff_any_failed(s, prefix);
    if !(exists|k: int| 0 <= k < prefix.len() && !prefix[k]) {
        assert forall|j: int| 0 <= j < i implies outcomes[j] by {
            assert(prefix[j] == outcomes[j]);
        }
    } else {
        let k = choose|k: int| 0 <= k < prefix.len() && !prefix[k];
        assert(outcomes[k] == prefix[k]);
    }
}

} // verus!
