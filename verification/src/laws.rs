//! The laws of the polling state machine, proved over its transition
//! relation [`step_model`].

use vstd::prelude::*;

use crate::error::{Error, spec_retriable};
use crate::item::{Item, sorted_by_date_desc};
use crate::watcher::{
    ActionModel, Event, Phase, Watcher, Watermark, lemma_window_len_bounds, step_model, window_len,
    wm_le,
};

verus! {

/// The state after feeding `events` to the watcher one by one.
pub open spec fn run_model(w: Watcher, events: Seq<Event>) -> Watcher
    decreases events.len(),
{
    if events.len() == 0 {
        w
    } else {
        run_model(step_model(w, events[0]).0, events.skip(1))
    }
}

/// `wm_le` is transitive.
pub proof fn lemma_wm_le_trans(a: Watermark, b: Watermark, c: Watermark)
    requires
        wm_le(a, b),
        wm_le(b, c),
    ensures
        wm_le(a, c),
{
}

/// One transition preserves well-formedness and never lowers the watermark.
pub proof fn lemma_step_preserves(w: Watcher, event: Event)
    requires
        w.wf(),
    ensures
        step_model(w, event).0.wf(),
        wm_le(w.watermark, step_model(w, event).0.watermark),
{
    match (w.phase, event) {
        (Phase::Fetching, Event::FetchResult(res)) => match res {
            Ok(items) => match w.watermark {
                Watermark::At(wm) => {
                    if items@.len() > 0 && window_len(items@, wm) > 0 {
                        assert(items@[0].date > wm);
                    }
                },
                Watermark::Unset => {},
            },
            Err(_) => {},
        },
        _ => {},
    }
}

/// For every sequence of events a watcher can see — fetch results, push
/// results, ticks, cancellation, shutdown — its watermark is monotonically
/// non-decreasing over its whole lifetime.
pub proof fn lemma_watermark_monotone(w: Watcher, events: Seq<Event>)
    requires
        w.wf(),
    ensures
        run_model(w, events).wf(),
        wm_le(w.watermark, run_model(w, events).watermark),
    decreases events.len(),
{
    if events.len() > 0 {
        let w1 = step_model(w, events[0]).0;
        lemma_step_preserves(w, events[0]);
        lemma_watermark_monotone(w1, events.skip(1));
        lemma_wm_le_trans(w.watermark, w1.watermark, run_model(w1, events.skip(1)).watermark);
    }
}

/// On the first successful fetch ever that returns items, nothing is
/// pushed and the watermark is primed to the newest item's date.
pub proof fn lemma_first_fetch_primes_without_push(w: Watcher, items: Vec<Item>)
    requires
        w.wf(),
        w.phase is Fetching,
        w.watermark is Unset,
        items@.len() > 0,
    ensures
        ({
            let (post, action) = step_model(w, Event::FetchResult(Ok(items)));
            &&& post.watermark == Watermark::At(items@[0].date)
            &&& action is Wait
        }),
{
}

/// Over a descending-sorted item sequence, the new-item window is exactly
/// the maximal prefix of items dated strictly after the watermark, and it
/// is empty if and only if the sequence is empty or its newest item is not
/// newer than the watermark.
pub proof fn lemma_window_is_maximal_prefix(items: Seq<Item>, w: i64)
    requires
        sorted_by_date_desc(items),
    ensures
        window_len(items, w) <= items.len(),
        forall|i: int| 0 <= i < window_len(items, w) ==> #[trigger] items[i].date > w,
        forall|i: int| window_len(items, w) <= i < items.len() ==> #[trigger] items[i].date <= w,
        window_len(items, w) == 0 <==> (items.len() == 0 || items[0].date <= w),
{
    lemma_window_len_bounds(items, w);
    let k = window_len(items, w);
    if k < items.len() {
        assert forall|i: int| k <= i < items.len() implies #[trigger] items[i].date <= w by {
            assert(items[k as int].date >= items[i].date);
        }
    }
}

/// One failed polling cycle: the tick, then a fetch that fails with `e`.
pub open spec fn failure_cycle(e: Error) -> Seq<Event> {
    seq![Event::Tick, Event::FetchResult(Err(e))]
}

/// Running one failure cycle is the two transitions in turn.
proof fn lemma_run_failure_cycle(w: Watcher, e: Error)
    ensures
        run_model(w, failure_cycle(e)) == step_model(
            step_model(w, Event::Tick).0,
            Event::FetchResult(Err(e)),
        ).0,
{
    let s = failure_cycle(e);
    let w1 = step_model(w, Event::Tick).0;
    let w2 = step_model(w1, Event::FetchResult(Err(e))).0;
    assert(s.len() == 2);
    assert(s[0] == Event::Tick);
    assert(run_model(w, s) == run_model(w1, s.skip(1)));
    let sk = seq![Event::FetchResult(Err(e))];
    assert(s.skip(1) =~= sk);
    assert(sk[0] == Event::FetchResult(Err(e)));
    assert(run_model(w1, sk) == run_model(w2, sk.skip(1)));
    assert(sk.skip(1) =~= Seq::<Event>::empty());
    assert(run_model(w2, sk.skip(1)) == w2);
}

/// `n` failed polling cycles in a row, each failing with `e`.
pub open spec fn failure_cycles(e: Error, n: nat) -> Seq<Event>
    decreases n,
{
    if n == 0 {
        Seq::empty()
    } else {
        failure_cycle(e) + failure_cycles(e, (n - 1) as nat)
    }
}

/// Running a concatenation runs the two halves in turn.
pub proof fn lemma_run_model_append(w: Watcher, a: Seq<Event>, b: Seq<Event>)
    ensures
        run_model(w, a + b) == run_model(run_model(w, a), b),
    decreases a.len(),
{
    if a.len() == 0 {
        assert(a + b =~= b);
    } else {
        assert((a + b)[0] == a[0]);
        assert((a + b).skip(1) =~= a.skip(1) + b);
        lemma_run_model_append(step_model(w, a[0]).0, a.skip(1), b);
    }
}

/// What one failed cycle does to a waiting watcher with budget left: it
/// consumes exactly one unit and changes nothing else.
pub proof fn lemma_failure_cycle_consumes_one(w: Watcher, e: Error)
    requires
        w.wf(),
        w.phase is Waiting,
        spec_retriable(e),
        w.retries_left > 0,
    ensures
        run_model(w, failure_cycle(e)) == (Watcher {
            retries_left: (w.retries_left - 1) as usize,
            phase: Phase::Waiting,
            ..w
        }),
{
    lemma_run_failure_cycle(w, e);
}

/// After `n` consecutive retriable failures, `n` at most the remaining
/// budget, the watcher is still running: each failure consumed exactly one
/// unit of budget, and the watermark and phase are untouched.
pub proof fn lemma_retriable_failures_within_budget(w: Watcher, e: Error, n: nat)
    requires
        w.wf(),
        w.phase is Waiting,
        spec_retriable(e),
        n <= w.retries_left,
    ensures
        run_model(w, failure_cycles(e, n)) == (Watcher {
            retries_left: (w.retries_left - n) as usize,
            phase: Phase::Waiting,
            ..w
        }),
    decreases n,
{
    if n == 0 {
        assert(failure_cycles(e, 0) =~= Seq::<Event>::empty());
        assert(run_model(w, failure_cycles(e, 0)) == w);
        assert(w == (Watcher {
            retries_left: (w.retries_left - 0) as usize,
            phase: Phase::Waiting,
            ..w
        }));
    } else {
        lemma_run_model_append(w, failure_cycle(e), failure_cycles(e, (n - 1) as nat));
        lemma_failure_cycle_consumes_one(w, e);
        let w2 = run_model(w, failure_cycle(e));
        lemma_retriable_failures_within_budget(w2, e, (n - 1) as nat);
    }
}

/// A retriable failure that arrives with the budget already exhausted is
/// promoted to a fatal error: the cycle drains the watcher, carrying `e`
/// as the fatal cause.
pub proof fn lemma_retriable_failure_exhausted(w: Watcher, e: Error)
    requires
        w.wf(),
        w.phase is Waiting,
        spec_retriable(e),
        w.retries_left == 0,
    ensures
        run_model(w, failure_cycle(e)).phase == (Phase::Draining { failure: Some(e) }),
{
    lemma_run_failure_cycle(w, e);
}

/// A non-retriable failure drains the watcher at once, whatever budget is
/// left.
pub proof fn lemma_fatal_failure_drains(w: Watcher, e: Error)
    requires
        w.wf(),
        w.phase is Fetching || w.phase is Pushing,
        !spec_retriable(e),
    ensures
        ({
            let (post, action) = step_model(
                w,
                if w.phase is Fetching {
                    Event::FetchResult(Err(e))
                } else {
                    Event::PushResult(Err(e))
                },
            );
            post.phase == (Phase::Draining { failure: Some(e) }) && action is Shutdown
        }),
{
}

/// Draining after a fatal error reports that error as the terminal
/// outcome, whatever the sink shutdown returned.
pub proof fn lemma_drain_reports_fatal(w: Watcher, e: Error, res: Result<(), Error>)
    requires
        w.phase == (Phase::Draining { failure: Some(e) }),
    ensures
        ({
            let (post, action) = step_model(w, Event::ShutdownResult(res));
            post.phase is Terminated && action == ActionModel::Done(Err(e))
        }),
{
}

/// The actions a run emits, in order.
pub open spec fn run_actions(w: Watcher, events: Seq<Event>) -> Seq<ActionModel>
    decreases events.len(),
{
    if events.len() == 0 {
        Seq::empty()
    } else {
        seq![step_model(w, events[0]).1] + run_actions(step_model(w, events[0]).0, events.skip(1))
    }
}

/// How many of the actions ask for a sink shutdown.
pub open spec fn shutdown_count(actions: Seq<ActionModel>) -> nat
    decreases actions.len(),
{
    if actions.len() == 0 {
        0
    } else {
        ((if actions[0] is Shutdown {
            1nat
        } else {
            0nat
        }) + shutdown_count(actions.skip(1))) as nat
    }
}

/// The watcher still runs its polling loop: no drain was decided yet.
pub open spec fn live(w: Watcher) -> bool {
    w.phase is Waiting || w.phase is Fetching || w.phase is Pushing
}

/// Over any sequence of events, a live watcher asks for the sink shutdown
/// at most once, and a draining or terminated one never asks again: the
/// sink's shutdown runs at most once per watcher lifetime.
pub proof fn lemma_shutdown_at_most_once(w: Watcher, events: Seq<Event>)
    ensures
        live(w) ==> shutdown_count(run_actions(w, events)) <= 1,
        !live(w) ==> shutdown_count(run_actions(w, events)) == 0,
    decreases events.len(),
{
    if events.len() > 0 {
        let (w1, a) = step_model(w, events[0]);
        lemma_shutdown_at_most_once(w1, events.skip(1));
        let acts = run_actions(w, events);
        assert(acts.skip(1) =~= run_actions(w1, events.skip(1)));
        assert(acts[0] == a);
        assert(a is Shutdown ==> w1.phase is Draining);
    }
}

/// A fully successful cycle — one whose push succeeds — resets the retry
/// budget to its configured limit, regardless of prior decrements.
pub proof fn lemma_successful_push_resets_budget(w: Watcher)
    requires
        w.wf(),
        w.phase is Pushing,
    ensures
        ({
            let post = step_model(w, Event::PushResult(Ok(()))).0;
            post.retries_left == w.retry_limit && post.phase is Waiting
        }),
{
}

} // verus!
