//! Configuration resolution.
//!
//! A configuration is a default section plus one entry per feed; unset
//! per-feed fields fall back to the default section. Resolution turns every
//! entry into a complete per-feed descriptor and fails exactly when some
//! feed ends up without a sink.

use vstd::prelude::*;

use crate::error::ConfigError;

verus! {

/// The polling interval, in seconds, used when none is configured.
pub const DEFAULT_INTERVAL_SECS: u64 = 60;

/// The retry budget used when none is configured.
pub const DEFAULT_RETRY_LIMIT: usize = 10;

/// The retry budget a feed gets when neither it nor the default section
/// sets one.
pub fn retry_limit_default() -> (r: usize)
    ensures
        r == DEFAULT_RETRY_LIMIT,
{
    DEFAULT_RETRY_LIMIT
}

/// The polling interval, in seconds, a feed gets when neither it nor the
/// default section sets one.
pub fn interval_default() -> (r: u64)
    ensures
        r == DEFAULT_INTERVAL_SECS,
{
    DEFAULT_INTERVAL_SECS
}

/// Which delivery backend a feed pushes to, with its settings.
#[derive(Debug, PartialEq, Eq)]
pub enum SinkOptions {
    /// A chat-webhook poster.
    Discord { url: String },
    /// A chat-webhook poster using block layout.
    Slack { url: String },
    /// An external process fed one JSON object per item on stdin.
    Custom { command: String, arguments: Vec<String> },
}

/// The two sink descriptors pick the same backend with equal settings.
pub open spec fn same_sink(a: SinkOptions, b: SinkOptions) -> bool {
    match (a, b) {
        (SinkOptions::Discord { url: u1 }, SinkOptions::Discord { url: u2 }) => u1 == u2,
        (SinkOptions::Slack { url: u1 }, SinkOptions::Slack { url: u2 }) => u1 == u2,
        (
            SinkOptions::Custom { command: c1, arguments: a1 },
            SinkOptions::Custom { command: c2, arguments: a2 },
        ) => c1 == c2 && a1@ == a2@,
        _ => false,
    }
}

impl SinkOptions {
    /// An equal copy of this descriptor.
    pub fn duplicate(&self) -> (r: SinkOptions)
        ensures
            same_sink(r, *self),
    {
        match self {
            SinkOptions::Discord { url } => SinkOptions::Discord { url: url.clone() },
            SinkOptions::Slack { url } => SinkOptions::Slack { url: url.clone() },
            SinkOptions::Custom { command, arguments } => SinkOptions::Custom {
                command: command.clone(),
                arguments: clone_strings(arguments),
            },
        }
    }
}

fn clone_strings(v: &Vec<String>) -> (r: Vec<String>)
    ensures
        r@ == v@,
{
    let mut r: Vec<String> = Vec::new();
    let mut i: usize = 0;
    while i < v.len()
        invariant
            i <= v.len(),
            r@ =~= v@.subrange(0, i as int),
        decreases v.len() - i,
    {
        r.push(v[i].clone());
        i += 1;
    }
    assert(r@ =~= v@);
    r
}

/// The default section: a sink for feeds that name none, and fallback
/// polling interval and retry budget.
#[derive(Debug, PartialEq, Eq)]
pub struct Defaults {
    pub sink: Option<SinkOptions>,
    pub interval_secs: u64,
    pub retry_limit: usize,
}

/// One configured feed; unset fields fall back to the default section.
#[derive(Debug, PartialEq, Eq)]
pub struct FeedConfig {
    pub url: String,
    pub sink: Option<SinkOptions>,
    pub interval_secs: Option<u64>,
    pub retry_limit: Option<usize>,
}

/// A whole configuration: the default section and the feed list.
#[derive(Debug, PartialEq, Eq)]
pub struct Config {
    pub defaults: Defaults,
    pub feeds: Vec<FeedConfig>,
}

/// A feed with every setting decided.
#[derive(Debug, PartialEq, Eq)]
pub struct ResolvedFeed {
    pub url: String,
    pub sink: SinkOptions,
    pub interval_secs: u64,
    pub retry_limit: usize,
}

/// The sink a feed ends up with: its own, else the default section's.
pub open spec fn chosen_sink(d: Defaults, f: FeedConfig) -> Option<SinkOptions> {
    if f.sink is Some {
        f.sink
    } else {
        d.sink
    }
}

/// The feed has a sink somewhere: its own or the default section's.
pub open spec fn feed_has_sink(d: Defaults, f: FeedConfig) -> bool {
    f.sink is Some || d.sink is Some
}

/// `r` is `f` resolved against the default section `d`: the URL is kept,
/// and sink, interval and retry budget are the feed's own where set, else
/// the defaults.
pub open spec fn resolution_matches(d: Defaults, f: FeedConfig, r: ResolvedFeed) -> bool {
    &&& r.url == f.url
    &&& (chosen_sink(d, f) matches Some(s) && same_sink(r.sink, s))
    &&& r.interval_secs == (match f.interval_secs {
        Some(s) => s,
        None => d.interval_secs,
    })
    &&& r.retry_limit == (match f.retry_limit {
        Some(l) => l,
        None => d.retry_limit,
    })
}

impl Config {
    /// Resolves every feed against the default section. Fails — with
    /// `MissingSink` — exactly when some feed names no sink and the default
    /// section has none either.
    pub fn resolve(&self) -> (r: Result<Vec<ResolvedFeed>, ConfigError>)
        ensures
            r is Ok <==> (forall|i: int|
                0 <= i < self.feeds@.len() ==> #[trigger] feed_has_sink(
                    self.defaults,
                    self.feeds@[i],
                )),
            r matches Ok(v) ==> v@.len() == self.feeds@.len() && (forall|i: int|
                0 <= i < v@.len() ==> #[trigger] resolution_matches(
                    self.defaults,
                    self.feeds@[i],
                    v@[i],
                )),
            r matches Err(e) ==> e is MissingSink,
    {
        let mut out: Vec<ResolvedFeed> = Vec::new();
        let n = self.feeds.len();
        let mut i: usize = 0;
        while i < n
            invariant
                n == self.feeds@.len(),
                i <= n,
                out@.len() == i,
                forall|j: int|
                    0 <= j < i ==> #[trigger] resolution_matches(
                        self.defaults,
                        self.feeds@[j],
                        out@[j],
                    ),
            decreases n - i,
        {
            let f = &self.feeds[i];
            let sink = match &f.sink {
                Some(s) => s.duplicate(),
                None => match &self.defaults.sink {
                    Some(s) => s.duplicate(),
                    None => {
                        proof {
                            assert(!feed_has_sink(self.defaults, self.feeds@[i as int]));
                        }
                        return Err(ConfigError::MissingSink);
                    },
                },
            };
            let resolved = ResolvedFeed {
                url: f.url.clone(),
                sink,
                interval_secs: match f.interval_secs {
                    Some(s) => s,
                    None => self.defaults.interval_secs,
                },
                retry_limit: match f.retry_limit {
                    Some(l) => l,
                    None => self.defaults.retry_limit,
                },
            };
            out.push(resolved);
            i += 1;
        }
        proof {
            assert forall|i0: int|
                0 <= i0 < self.feeds@.len() implies #[trigger] feed_has_sink(
                self.defaults,
                self.feeds@[i0],
            ) by {
                assert(resolution_matches(self.defaults, self.feeds@[i0], out@[i0]));
            }
        }
        Ok(out)
    }
}

} // verus!
