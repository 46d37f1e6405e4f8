//! Feed-document format dispatch.
//!
//! A fetched document is RSS or Atom. The two format crates do the
//! parsing; the dispatch decision — try RSS first, fall back to Atom only
//! when the document does not even start like an RSS one — is made and
//! verified here. What a parsed document contains stays opaque: the
//! feed-source adapter around the library turns it into plain [`crate::item::Item`]
//! values.

use vstd::prelude::*;

use crate::error::FeedError;

verus! {

#[verifier::external_type_specification]
#[verifier::external_body]
pub struct ExRssChannel(rss::Channel);

#[verifier::external_type_specification]
#[verifier::external_body]
pub struct ExAtomFeed(atom_syndication::Feed);

/// How the RSS parser answers on a document: parsed; rejected at the
/// opening tag, so the document is not RSS at all; or rejected later.
#[derive(Debug, Clone, Copy, PartialEq, Eq, Structural)]
pub enum RssOutcome {
    Parsed,
    NotRss,
    Invalid,
}

/// The RSS parser's verdict on a byte sequence; it depends on the bytes
/// alone.
pub uninterp spec fn rss_outcome(bytes: Seq<u8>) -> RssOutcome;

/// Whether the Atom parser accepts a byte sequence; it depends on the
/// bytes alone.
pub uninterp spec fn atom_parses(bytes: Seq<u8>) -> bool;

enum RssFailure {
    NotRss,
    Other(String),
}

/// Relies on rss::Channel::read_from: whether bytes parse as an RSS
/// channel — and whether a failure happened already at the opening tag —
/// depends on the bytes alone.
#[verifier::external_body]
fn read_rss(bytes: &[u8]) -> (r: Result<rss::Channel, RssFailure>)
    ensures
        r is Ok <==> rss_outcome(bytes@) is Parsed,
        r matches Err(f) ==> ((f is NotRss) <==> rss_outcome(bytes@) is NotRss),
{
    match rss::Channel::read_from(bytes) {
        Ok(c) => Ok(c),
        Err(rss::Error::InvalidStartTag) => Err(RssFailure::NotRss),
        Err(e) => Err(RssFailure::Other(format!("{e}"))),
    }
}

/// Relies on atom_syndication::Feed::read_from: whether bytes parse as an
/// Atom feed depends on the bytes alone.
#[verifier::external_body]
fn read_atom(bytes: &[u8]) -> (r: Result<atom_syndication::Feed, String>)
    ensures
        r is Ok <==> atom_parses(bytes@),
{
    match atom_syndication::Feed::read_from(bytes) {
        Ok(f) => Ok(f),
        Err(e) => Err(format!("{e}")),
    }
}

/// A parsed feed document: an RSS channel or an Atom feed.
#[derive(Debug)]
pub enum FeedDocument {
    Rss(rss::Channel),
    Atom(atom_syndication::Feed),
}

impl FeedDocument {
    /// Reads a feed document. RSS is tried first; Atom is tried only when
    /// the document does not even start like RSS. A document that starts
    /// like RSS but is broken is an RSS error, never retried as Atom.
    pub fn read_from(bytes: &[u8]) -> (r: Result<FeedDocument, FeedError>)
        ensures
            r is Ok <==> (rss_outcome(bytes@) is Parsed || (rss_outcome(bytes@) is NotRss
                && atom_parses(bytes@))),
            r matches Ok(f) ==> (f is Rss <==> rss_outcome(bytes@) is Parsed),
            r matches Err(e) ==> ((e is Rss <==> rss_outcome(bytes@) is Invalid) && (
            e is Atom <==> (rss_outcome(bytes@) is NotRss && !atom_parses(bytes@)))),
    {
        match read_rss(bytes) {
            Ok(c) => Ok(FeedDocument::Rss(c)),
            Err(RssFailure::NotRss) => match read_atom(bytes) {
                Ok(f) => Ok(FeedDocument::Atom(f)),
                Err(msg) => Err(FeedError::Atom(msg)),
            },
            Err(RssFailure::Other(msg)) => Err(FeedError::Rss(msg)),
        }
    }

    /// Returns `true` if the document parsed as RSS.
    #[must_use]
    pub fn is_rss(&self) -> (r: bool)
        ensures
            r == (*self is Rss),
    {
        match self {
            FeedDocument::Rss(_) => true,
            FeedDocument::Atom(_) => false,
        }
    }

    /// Returns `true` if the document parsed as Atom.
    #[must_use]
    pub fn is_atom(&self) -> (r: bool)
        ensures
            r == (*self is Atom),
    {
        match self {
            FeedDocument::Rss(_) => false,
            FeedDocument::Atom(_) => true,
        }
    }
}

} // verus!
