//! End-to-end scenarios of the polling state machine, driven one event at
//! a time.

use rss_forwarder::error::{Error, RequestError};
use rss_forwarder::item::{Item, Source};
use rss_forwarder::watcher::{Action, Event, Phase, Watcher, WatcherBuilder, Watermark};

fn item(date: i64) -> Item {
    Item {
        title: Some(format!("entry {date}")),
        description: None,
        content: None,
        link: Some(format!("https://example.com/{date}")),
        date,
        authors: Vec::new(),
        source: Source { title: "example feed".to_string(), url: None },
    }
}

fn watcher(retry_limit: usize) -> Watcher {
    WatcherBuilder::default()
        .url("https://example.com/feed.xml".to_string())
        .interval(60)
        .retry_limit(retry_limit)
        .build()
        .expect("valid url")
}

fn status(code: u16) -> Error {
    Error::Request(RequestError::Status(code))
}

#[test]
fn first_fetch_primes_watermark_without_pushing() {
    let w = watcher(3);
    assert_eq!(w.watermark, Watermark::Unset);

    let (w, action) = w.step(Event::Tick);
    assert!(matches!(action, Action::Fetch));

    let items = vec![item(100), item(90), item(80)];
    let (w, action) = w.step(Event::FetchResult(Ok(items)));
    assert!(matches!(action, Action::Wait), "the first poll must not push");
    assert_eq!(w.watermark, Watermark::At(100));
}

#[test]
fn newer_items_are_pushed_newest_first_and_watermark_follows() {
    let w = watcher(3);
    let (w, _) = w.step(Event::Tick);
    let (w, _) = w.step(Event::FetchResult(Ok(vec![item(100), item(90), item(80)])));
    assert_eq!(w.watermark, Watermark::At(100));

    let (w, action) = w.step(Event::Tick);
    assert!(matches!(action, Action::Fetch));
    let (w, action) = w.step(Event::FetchResult(Ok(vec![
        item(130),
        item(120),
        item(100),
        item(90),
        item(80),
    ])));
    match action {
        Action::Push(window) => {
            let dates: Vec<i64> = window.iter().map(|i| i.date).collect();
            assert_eq!(dates, vec![130, 120]);
        }
        other => panic!("expected a push, got {other:?}"),
    }
    assert_eq!(w.watermark, Watermark::At(100), "watermark moves only after the push succeeds");

    let (w, action) = w.step(Event::PushResult(Ok(())));
    assert!(matches!(action, Action::Wait));
    assert_eq!(w.watermark, Watermark::At(130));
}

#[test]
fn no_newer_items_means_no_push_and_watermark_unchanged() {
    let w = watcher(3);
    let (w, _) = w.step(Event::Tick);
    let (w, _) = w.step(Event::FetchResult(Ok(vec![item(100), item(90), item(80)])));

    let (w, _) = w.step(Event::Tick);
    let (w, action) = w.step(Event::FetchResult(Ok(vec![item(100), item(90), item(80)])));
    assert!(matches!(action, Action::Wait));
    assert_eq!(w.watermark, Watermark::At(100));
}

#[test]
fn empty_feed_is_a_no_op_cycle() {
    let w = watcher(3);
    let (w, _) = w.step(Event::Tick);
    let (w, action) = w.step(Event::FetchResult(Ok(Vec::new())));
    assert!(matches!(action, Action::Wait));
    assert_eq!(w.watermark, Watermark::Unset);
    assert_eq!(w.retries_left, 3);
}

#[test]
fn retriable_failures_consume_budget_then_turn_fatal() {
    // Budget 3, remaining 3: a 503 leaves 2 and the watcher continues;
    // three more 503s and the fourth one is fatal.
    let mut w = watcher(3);

    let (w2, _) = w.step(Event::Tick);
    let (w2, action) = w2.step(Event::FetchResult(Err(status(503))));
    assert!(matches!(action, Action::Wait));
    assert_eq!(w2.retries_left, 2);
    w = w2;

    for expected_left in [1, 0] {
        let (w2, _) = w.step(Event::Tick);
        let (w2, action) = w2.step(Event::FetchResult(Err(status(503))));
        assert!(matches!(action, Action::Wait));
        assert_eq!(w2.retries_left, expected_left);
        w = w2;
    }

    let (w2, _) = w.step(Event::Tick);
    let (w2, action) = w2.step(Event::FetchResult(Err(status(503))));
    assert!(matches!(action, Action::Shutdown), "the fourth failure exhausts the budget");
    let (w2, action) = w2.step(Event::ShutdownResult(Ok(())));
    assert!(matches!(w2.phase, Phase::Terminated));
    match action {
        Action::Done(outcome) => {
            assert_eq!(outcome, Err(status(503)));
        }
        other => panic!("expected the terminal outcome, got {other:?}"),
    }
}

#[test]
fn fatal_error_terminates_regardless_of_budget() {
    let w = watcher(3);
    let (w, _) = w.step(Event::Tick);
    let (w, action) = w.step(Event::FetchResult(Err(status(404))));
    assert!(matches!(action, Action::Shutdown));
    assert_eq!(w.retries_left, 3, "fatal errors do not consume retry budget");
    let (_, action) = w.step(Event::ShutdownResult(Ok(())));
    assert_eq!(match action {
        Action::Done(outcome) => outcome,
        other => panic!("expected the terminal outcome, got {other:?}"),
    }, Err(status(404)));
}

#[test]
fn successful_push_resets_retry_budget() {
    let w = watcher(3);
    let (w, _) = w.step(Event::Tick);
    let (w, _) = w.step(Event::FetchResult(Ok(vec![item(100)])));

    // consume one unit of budget
    let (w, _) = w.step(Event::Tick);
    let (w, _) = w.step(Event::FetchResult(Err(status(500))));
    assert_eq!(w.retries_left, 2);

    // a fully successful cycle
    let (w, _) = w.step(Event::Tick);
    let (w, action) = w.step(Event::FetchResult(Ok(vec![item(200), item(100)])));
    assert!(matches!(action, Action::Push(_)));
    let (w, _) = w.step(Event::PushResult(Ok(())));
    assert_eq!(w.retries_left, 3, "the budget is back at its configured limit");
    assert_eq!(w.watermark, Watermark::At(200));
}

#[test]
fn push_failures_are_classified_like_fetch_failures() {
    let w = watcher(3);
    let (w, _) = w.step(Event::Tick);
    let (w, _) = w.step(Event::FetchResult(Ok(vec![item(100)])));
    let (w, _) = w.step(Event::Tick);
    let (w, action) = w.step(Event::FetchResult(Ok(vec![item(150), item(100)])));
    assert!(matches!(action, Action::Push(_)));

    let (w, action) = w.step(Event::PushResult(Err(status(503))));
    assert!(matches!(action, Action::Wait));
    assert_eq!(w.retries_left, 2);
    assert_eq!(w.watermark, Watermark::At(100), "a failed push leaves the watermark alone");
}

#[test]
fn cancellation_while_waiting_shuts_the_sink_down_and_reports_success() {
    let w = watcher(3);
    let (w, action) = w.step(Event::Cancelled);
    assert!(matches!(action, Action::Shutdown), "the sink is shut down exactly once, now");
    let (w, action) = w.step(Event::ShutdownResult(Ok(())));
    assert!(matches!(w.phase, Phase::Terminated));
    match action {
        Action::Done(outcome) => assert_eq!(outcome, Ok(())),
        other => panic!("expected the terminal outcome, got {other:?}"),
    }
}

#[test]
fn sink_shutdown_error_is_the_outcome_of_a_cancelled_watcher() {
    let w = watcher(3);
    let (w, _) = w.step(Event::Cancelled);
    let (_, action) = w.step(Event::ShutdownResult(Err(Error::Sink("broken pipe".to_string()))));
    match action {
        Action::Done(outcome) => {
            assert_eq!(outcome, Err(Error::Sink("broken pipe".to_string())));
        }
        other => panic!("expected the terminal outcome, got {other:?}"),
    }
}

#[test]
fn builder_rejects_an_invalid_url() {
    let r = WatcherBuilder::default().url("not a url at all".to_string()).build();
    match r {
        Err(rss_forwarder::error::ConfigError::InvalidUrl(u)) => {
            assert_eq!(u, "not a url at all");
        }
        other => panic!("expected an invalid-url error, got {other:?}"),
    }
}

#[test]
fn watcher_new_applies_the_interval_fallback() {
    let w = Watcher::new("https://example.com/a".to_string(), None, 5).expect("valid url");
    assert_eq!(w.interval_secs, 60);
    assert_eq!(w.retry_limit, 5);
    assert_eq!(w.retries_left, 5);
    let w = Watcher::new("https://example.com/a".to_string(), Some(15), 5).expect("valid url");
    assert_eq!(w.interval_secs, 15);
}
