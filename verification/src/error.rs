//! Error taxonomy of the forwarder.
//!
//! Transport failures are classified as retriable (timeout, connection
//! failure, 5xx response) or fatal (anything else). Retriable failures
//! consume retry budget; fatal ones terminate the owning watcher.

use vstd::prelude::*;

verus! {

/// A failed network exchange, reduced to what the retry policy reads.
#[derive(Debug, PartialEq, Eq)]
pub enum RequestError {
    /// The request timed out.
    Timeout,
    /// The connection could not be established.
    Connect,
    /// The server answered with the given non-success HTTP status code.
    Status(u16),
    /// Any other transport failure, with its description.
    Other(String),
}

/// A feed document that could not be parsed or is missing required fields.
#[derive(Debug, PartialEq, Eq)]
pub enum FeedError {
    /// An item lacks a required field; the message names it.
    Item(String),
    /// The document looked like RSS but did not parse as RSS.
    Rss(String),
    /// The document did not parse as Atom.
    Atom(String),
    /// Markup-to-text conversion of an item's content failed.
    Html2Text(String),
}

/// A configuration that cannot be turned into a set of watchers.
#[derive(Debug, PartialEq, Eq)]
pub enum ConfigError {
    /// A feed has no sink of its own and no default sink is given.
    MissingSink,
    /// A feed's URL is not a valid URL; the string is the rejected value.
    InvalidUrl(String),
}

/// The supervisor's aggregate failure.
#[derive(Debug, PartialEq, Eq)]
pub enum WatcherError {
    /// At least one watcher terminated with a fatal error.
    Failed,
}

/// Any error the forwarder can report.
#[derive(Debug, PartialEq, Eq)]
pub enum Error {
    /// A feed document error.
    Feed(FeedError),
    /// A sink rejected or failed to deliver a batch.
    Sink(String),
    /// A JSON serialization failure in a sink backend.
    Json(String),
    /// A background task failed.
    Task(String),
    /// An I/O failure outside the network layer.
    Io(String),
    /// A network transfer failure.
    Request(RequestError),
    /// The configuration file could not be read as TOML.
    Toml(String),
    /// The configuration is incomplete or inconsistent.
    Config(ConfigError),
    /// The supervisor's aggregate failure.
    Watcher(WatcherError),
}

/// A retriable error: a network timeout, a connection failure, or a
/// 5xx-class response. Everything else is fatal.
pub open spec fn spec_retriable(err: Error) -> bool {
    match err {
        Error::Request(RequestError::Timeout) => true,
        Error::Request(RequestError::Connect) => true,
        Error::Request(RequestError::Status(code)) => 500 <= code <= 599,
        _ => false,
    }
}

/// Classifies an error for the retry policy: retriable failures consume
/// retry budget, fatal ones terminate the watcher.
pub fn is_retriable(err: &Error) -> (r: bool)
    ensures
        r == spec_retriable(*err),
{
    match err {
        Error::Request(RequestError::Timeout) => true,
        Error::Request(RequestError::Connect) => true,
        Error::Request(RequestError::Status(code)) => 500 <= *code && *code <= 599,
        _ => false,
    }
}

} // verus!
