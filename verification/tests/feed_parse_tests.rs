//! Feed-document format dispatch, exercised against the real parsers.

use rss_forwarder::error::FeedError;
use rss_forwarder::feed::FeedDocument;

const RSS_DOC: &str = r#"<?xml version="1.0" encoding="UTF-8"?>
<rss version="2.0">
  <channel>
    <title>example feed</title>
    <link>https://example.com/</link>
    <description>an example</description>
    <item>
      <title>first</title>
      <link>https://example.com/1</link>
      <pubDate>Tue, 01 Jun 2021 10:00:00 +0000</pubDate>
    </item>
  </channel>
</rss>"#;

const ATOM_DOC: &str = r#"<?xml version="1.0" encoding="utf-8"?>
<feed xmlns="http://www.w3.org/2005/Atom">
  <title>example feed</title>
  <id>urn:example</id>
  <updated>2021-06-01T10:00:00Z</updated>
  <entry>
    <title>first</title>
    <id>urn:example:1</id>
    <updated>2021-06-01T10:00:00Z</updated>
    <link rel="alternate" href="https://example.com/1"/>
  </entry>
</feed>"#;

#[test]
fn an_rss_document_parses_as_rss() {
    let doc = FeedDocument::read_from(RSS_DOC.as_bytes()).expect("valid RSS");
    assert!(doc.is_rss());
    assert!(!doc.is_atom());
}

#[test]
fn an_atom_document_falls_back_to_the_atom_parser() {
    let doc = FeedDocument::read_from(ATOM_DOC.as_bytes()).expect("valid Atom");
    assert!(doc.is_atom());
    assert!(!doc.is_rss());
}

#[test]
fn a_document_that_is_neither_is_an_atom_error() {
    // The opening tag is not an RSS one, so the Atom parser gets its turn
    // and rejects the document too.
    let r = FeedDocument::read_from(b"<html><body>nope</body></html>");
    match r {
        Err(FeedError::Atom(_)) => {}
        other => panic!("expected an Atom parse error, got {other:?}"),
    }
}

#[test]
fn a_broken_rss_document_is_an_rss_error_not_retried_as_atom() {
    // Starts like RSS, then ends abruptly: the failure stays an RSS one.
    let r = FeedDocument::read_from(b"<rss version=\"2.0\"><channel>");
    match r {
        Err(FeedError::Rss(_)) => {}
        other => panic!("expected an RSS parse error, got {other:?}"),
    }
}
