//! The retry classification: timeouts, connection failures and 5xx are
//! retriable, everything else is fatal.

use rss_forwarder::error::{ConfigError, Error, FeedError, RequestError, is_retriable};

#[test]
fn timeouts_and_connection_failures_are_retriable() {
    assert!(is_retriable(&Error::Request(RequestError::Timeout)));
    assert!(is_retriable(&Error::Request(RequestError::Connect)));
}

#[test]
fn server_errors_are_retriable() {
    assert!(is_retriable(&Error::Request(RequestError::Status(500))));
    assert!(is_retriable(&Error::Request(RequestError::Status(503))));
    assert!(is_retriable(&Error::Request(RequestError::Status(599))));
}

#[test]
fn client_errors_are_fatal() {
    assert!(!is_retriable(&Error::Request(RequestError::Status(400))));
    assert!(!is_retriable(&Error::Request(RequestError::Status(404))));
    assert!(!is_retriable(&Error::Request(RequestError::Status(429))));
    assert!(!is_retriable(&Error::Request(RequestError::Status(499))));
}

#[test]
fn other_errors_are_fatal() {
    assert!(!is_retriable(&Error::Request(RequestError::Other("tls".to_string()))));
    assert!(!is_retriable(&Error::Feed(FeedError::Item("title is missing".to_string()))));
    assert!(!is_retriable(&Error::Sink("broken".to_string())));
    assert!(!is_retriable(&Error::Config(ConfigError::MissingSink)));
    assert!(!is_retriable(&Error::Io("disk".to_string())));
}
