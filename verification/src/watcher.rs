//! The per-feed polling state machine.
//!
//! A [`Watcher`] owns one feed's watermark and retry budget and decides, one
//! event at a time, what the surrounding runtime should do next: wait for
//! the tick, fetch the feed, push a window of new items, shut the sink down,
//! or stop. The runtime performs the I/O and feeds the outcome back in as
//! the next [`Event`]; every decision in between is made — and verified —
//! here. The whole transition relation is written down once, as the
//! specification function [`step_model`], and [`Watcher::step`] is proved to
//! follow it exactly.

use vstd::prelude::*;

use crate::error::{ConfigError, Error, spec_retriable, is_retriable};
use crate::item::Item;

verus! {

/// The publish date boundary below which items count as already delivered,
/// or `Unset` before the first successful poll.
#[derive(Debug, Clone, Copy, PartialEq, Eq, Structural)]
pub enum Watermark {
    Unset,
    At(i64),
}

/// The watermark never moves backwards: `Unset` precedes everything, and a
/// set watermark only ever grows.
pub open spec fn wm_le(a: Watermark, b: Watermark) -> bool {
    match a {
        Watermark::Unset => true,
        Watermark::At(x) => b matches Watermark::At(y) && x <= y,
    }
}

/// Where a watcher stands in its fetch-evaluate-push cycle.
#[derive(Debug)]
pub enum Phase {
    /// Waiting for the polling interval to elapse or for cancellation.
    Waiting,
    /// A fetch is in flight.
    Fetching,
    /// A push is in flight; on success the watermark becomes `pending_date`.
    Pushing { pending_date: i64 },
    /// Cancellation or a fatal error was decided; the sink is shutting down.
    /// A fatal error is carried here so the terminal outcome can report it.
    Draining { failure: Option<Error> },
    /// The watcher is finished and accepts no further event.
    Terminated,
}

/// What the runtime tells the watcher.
#[derive(Debug)]
pub enum Event {
    /// The polling interval elapsed.
    Tick,
    /// The shared cancellation signal fired.
    Cancelled,
    /// The fetch finished, with the feed's items — sorted by date,
    /// descending — or the error.
    FetchResult(Result<Vec<Item>, Error>),
    /// The push finished.
    PushResult(Result<(), Error>),
    /// The sink shutdown finished.
    ShutdownResult(Result<(), Error>),
}

/// What the watcher tells the runtime to do next.
#[derive(Debug)]
pub enum Action {
    /// Wait for the next tick or for cancellation.
    Wait,
    /// Fetch the feed.
    Fetch,
    /// Push exactly these items to the sink, in the order given.
    Push(Vec<Item>),
    /// Shut the sink down.
    Shutdown,
    /// The watcher is done; this is its terminal outcome.
    Done(Result<(), Error>),
}

/// The mathematical image of an [`Action`]: the pushed items as a sequence.
pub enum ActionModel {
    Wait,
    Fetch,
    Push(Seq<Item>),
    Shutdown,
    Done(Result<(), Error>),
}

impl View for Action {
    type V = ActionModel;

    open spec fn view(&self) -> ActionModel {
        match self {
            Action::Wait => ActionModel::Wait,
            Action::Fetch => ActionModel::Fetch,
            Action::Push(items) => ActionModel::Push(items@),
            Action::Shutdown => ActionModel::Shutdown,
            Action::Done(r) => ActionModel::Done(*r),
        }
    }
}

/// One feed's polling state: its immutable endpoint descriptor and the
/// mutable watermark, retry budget and phase.
#[derive(Debug)]
pub struct Watcher {
    pub url: String,
    pub interval_secs: u64,
    /// The configured retry budget.
    pub retry_limit: usize,
    /// What is left of the budget; consumed by retriable failures only.
    pub retries_left: usize,
    pub watermark: Watermark,
    pub phase: Phase,
}

/// How many leading items of `items` are strictly newer than the watermark
/// `w`. The scan is contiguous: it stops at the first item that does not
/// qualify.
pub open spec fn window_len(items: Seq<Item>, w: i64) -> nat
    decreases items.len(),
{
    if items.len() == 0 {
        0
    } else if items[0].date <= w {
        0
    } else {
        (window_len(items.skip(1), w) + 1) as nat
    }
}

/// What `window_len` returns: a prefix of qualifying items, stopped at the
/// first item that does not qualify.
pub proof fn lemma_window_len_bounds(items: Seq<Item>, w: i64)
    ensures
        window_len(items, w) <= items.len(),
        forall|i: int| 0 <= i < window_len(items, w) ==> #[trigger] items[i].date > w,
        window_len(items, w) < items.len() ==> items[window_len(items, w) as int].date <= w,
    decreases items.len(),
{
    if items.len() == 0 {
    } else if items[0].date <= w {
    } else {
        lemma_window_len_bounds(items.skip(1), w);
        let k = window_len(items, w);
        assert forall|i: int| 0 <= i < k implies #[trigger] items[i].date > w by {
            if i > 0 {
                assert(items.skip(1)[i - 1] == items[i]);
            }
        }
        if k < items.len() {
            assert(items.skip(1)[k - 1] == items[k as int]);
        }
    }
}

/// `window_len` is the only length with those properties.
pub proof fn lemma_window_len_is(items: Seq<Item>, w: i64, k: nat)
    requires
        k <= items.len(),
        forall|i: int| 0 <= i < k ==> #[trigger] items[i].date > w,
        k < items.len() ==> items[k as int].date <= w,
    ensures
        window_len(items, w) == k,
    decreases items.len(),
{
    if items.len() == 0 {
    } else if items[0].date <= w {
        assert(k == 0);
    } else {
        assert(k >= 1);
        let rest = items.skip(1);
        assert forall|i: int| 0 <= i < k - 1 implies #[trigger] rest[i].date > w by {
            assert(rest[i] == items[i + 1]);
        }
        if k - 1 < rest.len() {
            assert(rest[k - 1] == items[k as int]);
        }
        lemma_window_len_is(rest, w, (k - 1) as nat);
    }
}

/// Counts the leading items strictly newer than the watermark `w`.
pub fn new_window_len(items: &Vec<Item>, w: i64) -> (k: usize)
    ensures
        k == window_len(items@, w),
{
    let n = items.len();
    let mut i: usize = 0;
    while i < n && items[i].date > w
        invariant
            n == items@.len(),
            i <= n,
            forall|j: int| 0 <= j < i ==> #[trigger] items@[j].date > w,
        decreases n - i,
    {
        i += 1;
    }
    proof {
        lemma_window_len_is(items@, w, i as nat);
    }
    i
}

impl Watcher {
    /// The structural facts every watcher keeps: the budget never exceeds
    /// its limit, and a pending push date is strictly newer than the
    /// current watermark.
    pub open spec fn wf(self) -> bool {
        &&& self.retries_left <= self.retry_limit
        &&& (self.phase matches Phase::Pushing { pending_date } ==> (self.watermark matches
            Watermark::At(w) && pending_date > w))
    }

    /// Which event each phase is waiting for.
    pub open spec fn accepts(self, event: Event) -> bool {
        match self.phase {
            Phase::Waiting => event is Tick || event is Cancelled,
            Phase::Fetching => event is FetchResult,
            Phase::Pushing { .. } => event is PushResult,
            Phase::Draining { .. } => event is ShutdownResult,
            Phase::Terminated => false,
        }
    }

    /// Builds a watcher for one feed. `interval_secs` falls back to the
    /// default polling interval when absent. Fails exactly when the URL is
    /// not a valid URL.
    pub fn new(url: String, interval_secs: Option<u64>, retry_limit: usize) -> (r: Result<
        Watcher,
        ConfigError,
    >)
        ensures
            r is Ok <==> url_accepted(url@),
            r matches Ok(w) ==> w == (Watcher {
                url: url,
                interval_secs: match interval_secs {
                    Some(s) => s,
                    None => crate::config::DEFAULT_INTERVAL_SECS,
                },
                retry_limit: retry_limit,
                retries_left: retry_limit,
                watermark: Watermark::Unset,
                phase: Phase::Waiting,
            }),
            r matches Err(e) ==> (e matches ConfigError::InvalidUrl(u) && u == url),
    {
        let interval = match interval_secs {
            Some(s) => s,
            None => crate::config::DEFAULT_INTERVAL_SECS,
        };
        WatcherBuilder::default().url(url).interval(interval).retry_limit(retry_limit).build()
    }

    /// The number of leading items of `items` that are strictly newer than
    /// the watermark, or `None` when there are none — in which case the
    /// cycle is a no-op.
    pub fn get_new_items(&self, items: &Vec<Item>) -> (r: Option<usize>)
        requires
            self.watermark is At,
        ensures
            ({
                let w = self.watermark->0;
                match r {
                    Some(k) => k == window_len(items@, w) && k > 0,
                    None => window_len(items@, w) == 0,
                }
            }),
    {
        let w = match self.watermark {
            Watermark::At(w) => w,
            Watermark::Unset => {
                return None;
            },
        };
        let k = new_window_len(items, w);
        if k == 0 {
            None
        } else {
            Some(k)
        }
    }

    /// Advances the state machine by one event and returns what the runtime
    /// must do next. The transition taken is exactly [`step_model`]; on top
    /// of that, well-formedness is preserved and the watermark never moves
    /// backwards.
    pub fn step(self, event: Event) -> (r: (Watcher, Action))
        requires
            self.wf(),
            self.accepts(event),
        ensures
            (r.0, r.1@) == step_model(self, event),
            r.0.wf(),
            wm_le(self.watermark, r.0.watermark),
    {
        let Watcher { url, interval_secs, retry_limit, retries_left, watermark, phase } = self;
        match (phase, event) {
            (Phase::Waiting, Event::Tick) => (
                Watcher {
                    url,
                    interval_secs,
                    retry_limit,
                    retries_left,
                    watermark,
                    phase: Phase::Fetching,
                },
                Action::Fetch,
            ),
            (Phase::Waiting, Event::Cancelled) => (
                Watcher {
                    url,
                    interval_secs,
                    retry_limit,
                    retries_left,
                    watermark,
                    phase: Phase::Draining { failure: None },
                },
                Action::Shutdown,
            ),
            (Phase::Fetching, Event::FetchResult(res)) => match res {
                Ok(mut items) => {
                    if items.len() == 0 {
                        (
                            Watcher {
                                url,
                                interval_secs,
                                retry_limit,
                                retries_left,
                                watermark,
                                phase: Phase::Waiting,
                            },
                            Action::Wait,
                        )
                    } else {
                        match watermark {
                            Watermark::Unset => {
                                let newest = items[0].date;
                                (
                                    Watcher {
                                        url,
                                        interval_secs,
                                        retry_limit,
                                        retries_left,
                                        watermark: Watermark::At(newest),
                                        phase: Phase::Waiting,
                                    },
                                    Action::Wait,
                                )
                            },
                            Watermark::At(w) => {
                                let k = new_window_len(&items, w);
                                if k == 0 {
                                    (
                                        Watcher {
                                            url,
                                            interval_secs,
                                            retry_limit,
                                            retries_left,
                                            watermark,
                                            phase: Phase::Waiting,
                                        },
                                        Action::Wait,
                                    )
                                } else {
                                    let newest = items[0].date;
                                    proof {
                                        lemma_window_len_bounds(items@, w);
                                    }
                                    items.truncate(k);
                                    (
                                        Watcher {
                                            url,
                                            interval_secs,
                                            retry_limit,
                                            retries_left,
                                            watermark,
                                            phase: Phase::Pushing { pending_date: newest },
                                        },
                                        Action::Push(items),
                                    )
                                }
                            },
                        }
                    }
                },
                Err(e) => step_failure(
                    url,
                    interval_secs,
                    retry_limit,
                    retries_left,
                    watermark,
                    e,
                ),
            },
            (Phase::Pushing { pending_date }, Event::PushResult(res)) => match res {
                Ok(_) => (
                    Watcher {
                        url,
                        interval_secs,
                        retry_limit,
                        retries_left: retry_limit,
                        watermark: Watermark::At(pending_date),
                        phase: Phase::Waiting,
                    },
                    Action::Wait,
                ),
                Err(e) => step_failure(
                    url,
                    interval_secs,
                    retry_limit,
                    retries_left,
                    watermark,
                    e,
                ),
            },
            (Phase::Draining { failure }, Event::ShutdownResult(res)) => {
                let outcome = match failure {
                    Some(e) => Err(e),
                    None => res,
                };
                (
                    Watcher {
                        url,
                        interval_secs,
                        retry_limit,
                        retries_left,
                        watermark,
                        phase: Phase::Terminated,
                    },
                    Action::Done(outcome),
                )
            },
            _ => {
                // every other pairing of phase and event is excluded by `accepts`
                proof {
                    assert(false);
                }
                (
                    Watcher {
                        url,
                        interval_secs,
                        retry_limit,
                        retries_left,
                        watermark,
                        phase: Phase::Terminated,
                    },
                    Action::Wait,
                )
            },
        }
    }
}

/// The retry decision both fetch and push failures go through: a retriable
/// error with budget left consumes one unit and abandons the cycle; any
/// other error drains the watcher, carrying the error as fatal.
fn step_failure(
    url: String,
    interval_secs: u64,
    retry_limit: usize,
    retries_left: usize,
    watermark: Watermark,
    e: Error,
) -> (r: (Watcher, Action))
    ensures
        ({
            let pre = Watcher {
                url,
                interval_secs,
                retry_limit,
                retries_left,
                watermark,
                phase: Phase::Waiting,
            };
            (r.0, r.1@) == failure_model(pre, e)
        }),
{
    if is_retriable(&e) && retries_left > 0 {
        (
            Watcher {
                url,
                interval_secs,
                retry_limit,
                retries_left: retries_left - 1,
                watermark,
                phase: Phase::Waiting,
            },
            Action::Wait,
        )
    } else {
        (
            Watcher {
                url,
                interval_secs,
                retry_limit,
                retries_left,
                watermark,
                phase: Phase::Draining { failure: Some(e) },
            },
            Action::Shutdown,
        )
    }
}

/// The transition relation of the watcher, written as one total function
/// from state and event to successor state and action. Events a phase is
/// not waiting for leave the state unchanged.
pub open spec fn step_model(pre: Watcher, event: Event) -> (Watcher, ActionModel) {
    match (pre.phase, event) {
        (Phase::Waiting, Event::Tick) => (
            Watcher { phase: Phase::Fetching, ..pre },
            ActionModel::Fetch,
        ),
        (Phase::Waiting, Event::Cancelled) => (
            Watcher { phase: Phase::Draining { failure: None }, ..pre },
            ActionModel::Shutdown,
        ),
        (Phase::Fetching, Event::FetchResult(res)) => match res {
            Ok(items) => evaluation_model(pre, items@),
            Err(e) => failure_model(pre, e),
        },
        (Phase::Pushing { pending_date }, Event::PushResult(res)) => match res {
            Ok(_) => (
                Watcher {
                    retries_left: pre.retry_limit,
                    watermark: Watermark::At(pending_date),
                    phase: Phase::Waiting,
                    ..pre
                },
                ActionModel::Wait,
            ),
            Err(e) => failure_model(pre, e),
        },
        (Phase::Draining { failure }, Event::ShutdownResult(res)) => (
            Watcher { phase: Phase::Terminated, ..pre },
            ActionModel::Done(
                match failure {
                    Some(e) => Err(e),
                    None => res,
                },
            ),
        ),
        _ => (pre, ActionModel::Wait),
    }
}

/// How a successful fetch is evaluated: an empty feed is a no-op; the first
/// successful poll ever only primes the watermark, pushing nothing; after
/// that, the new-item window — the items strictly newer than the watermark —
/// is pushed if it is non-empty, remembering the newest date for the
/// watermark update that follows a successful push.
pub open spec fn evaluation_model(pre: Watcher, items: Seq<Item>) -> (Watcher, ActionModel) {
    if items.len() == 0 {
        (Watcher { phase: Phase::Waiting, ..pre }, ActionModel::Wait)
    } else {
        match pre.watermark {
            Watermark::Unset => (
                Watcher {
                    watermark: Watermark::At(items[0].date),
                    phase: Phase::Waiting,
                    ..pre
                },
                ActionModel::Wait,
            ),
            Watermark::At(w) => {
                let k = window_len(items, w);
                if k == 0 {
                    (Watcher { phase: Phase::Waiting, ..pre }, ActionModel::Wait)
                } else {
                    (
                        Watcher {
                            phase: Phase::Pushing { pending_date: items[0].date },
                            ..pre
                        },
                        ActionModel::Push(items.subrange(0, k as int)),
                    )
                }
            },
        }
    }
}

/// How a fetch or push failure is absorbed: retriable with budget left
/// consumes one unit; anything else is fatal and drains the watcher.
pub open spec fn failure_model(pre: Watcher, e: Error) -> (Watcher, ActionModel) {
    if spec_retriable(e) && pre.retries_left > 0 {
        (
            Watcher {
                retries_left: (pre.retries_left - 1) as usize,
                phase: Phase::Waiting,
                ..pre
            },
            ActionModel::Wait,
        )
    } else {
        (
            Watcher { phase: Phase::Draining { failure: Some(e) }, ..pre },
            ActionModel::Shutdown,
        )
    }
}

/// A string the URL parser accepts as a valid absolute URL.
pub uninterp spec fn url_accepted(s: Seq<char>) -> bool;

/// Relies on url::Url::parse: whether a string parses as an absolute URL
/// depends on the string alone.
#[verifier::external_body]
fn url_is_valid(s: &str) -> (r: bool)
    ensures
        r == url_accepted(s@),
{
    url::Url::parse(s).is_ok()
}

/// A plain validated-configuration builder for [`Watcher`]: set the fields,
/// then let `build` validate the URL and produce the initial state.
#[derive(Debug)]
pub struct WatcherBuilder {
    pub url: String,
    pub interval_secs: u64,
    pub retry_limit: usize,
}

impl Default for WatcherBuilder {
    /// Starts from an empty URL, the default polling interval, and a
    /// builder retry budget of three.
    fn default() -> (b: WatcherBuilder)
        ensures
            b.url@ == Seq::<char>::empty(),
            b.interval_secs == crate::config::DEFAULT_INTERVAL_SECS,
            b.retry_limit == BUILDER_RETRY_LIMIT,
    {
        WatcherBuilder {
            url: String::new(),
            interval_secs: crate::config::DEFAULT_INTERVAL_SECS,
            retry_limit: BUILDER_RETRY_LIMIT,
        }
    }
}

/// The retry budget a builder starts from when none is set.
pub const BUILDER_RETRY_LIMIT: usize = 3;

impl WatcherBuilder {
    /// Sets the feed URL.
    pub fn url(self, url: String) -> (b: WatcherBuilder)
        ensures
            b == (WatcherBuilder { url, ..self }),
    {
        WatcherBuilder { url, ..self }
    }

    /// Sets the polling interval, in seconds.
    pub fn interval(self, interval_secs: u64) -> (b: WatcherBuilder)
        ensures
            b == (WatcherBuilder { interval_secs, ..self }),
    {
        WatcherBuilder { interval_secs, ..self }
    }

    /// Sets the retry budget.
    pub fn retry_limit(self, retry_limit: usize) -> (b: WatcherBuilder)
        ensures
            b == (WatcherBuilder { retry_limit, ..self }),
    {
        WatcherBuilder { retry_limit, ..self }
    }

    /// Validates the URL and builds the initial watcher state: full retry
    /// budget, watermark unset, waiting for the first tick. Fails exactly
    /// when the URL is not a valid URL.
    pub fn build(self) -> (r: Result<Watcher, ConfigError>)
        ensures
            r is Ok <==> url_accepted(self.url@),
            r matches Ok(w) ==> w == (Watcher {
                url: self.url,
                interval_secs: self.interval_secs,
                retry_limit: self.retry_limit,
                retries_left: self.retry_limit,
                watermark: Watermark::Unset,
                phase: Phase::Waiting,
            }),
            r matches Err(e) ==> (e matches ConfigError::InvalidUrl(u) && u == self.url),
    {
        if url_is_valid(self.url.as_str()) {
            Ok(
                Watcher {
                    url: self.url,
                    interval_secs: self.interval_secs,
                    retry_limit: self.retry_limit,
                    retries_left: self.retry_limit,
                    watermark: Watermark::Unset,
                    phase: Phase::Waiting,
                },
            )
        } else {
            Err(ConfigError::InvalidUrl(self.url))
        }
    }
}

} // verus!
