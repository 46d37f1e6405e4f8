//! The new-item window computation, the item sort, and delivery records.

use rss_forwarder::error::FeedError;
use rss_forwarder::item::{
    Author, DeliveryRecord, Item, Source, TryFromItem, sort_items_by_date,
};
use rss_forwarder::watcher::new_window_len;

fn item(date: i64) -> Item {
    Item {
        title: Some(format!("entry {date}")),
        description: Some("<p>text</p>".to_string()),
        content: None,
        link: Some(format!("https://example.com/{date}")),
        date,
        authors: vec![Author {
            name: "ada".to_string(),
            email: None,
            uri: Some("https://example.com/ada".to_string()),
        }],
        source: Source { title: "example feed".to_string(), url: None },
    }
}

#[test]
fn window_is_the_prefix_of_strictly_newer_items() {
    let items = vec![item(130), item(120), item(100), item(90), item(80)];
    assert_eq!(new_window_len(&items, 100), 2);
    assert_eq!(new_window_len(&items, 79), 5);
    assert_eq!(new_window_len(&items, 130), 0);
    assert_eq!(new_window_len(&items, 131), 0);
    assert_eq!(new_window_len(&Vec::new(), 0), 0);
}

#[test]
fn window_requires_strictly_newer_dates() {
    let items = vec![item(100), item(90), item(80)];
    assert_eq!(new_window_len(&items, 100), 0);
    assert_eq!(new_window_len(&items, 99), 1);
}

#[test]
fn sort_orders_newest_first_and_keeps_every_item() {
    let mut items = vec![item(90), item(130), item(80), item(120), item(100)];
    sort_items_by_date(&mut items);
    let dates: Vec<i64> = items.iter().map(|i| i.date).collect();
    assert_eq!(dates, vec![130, 120, 100, 90, 80]);
}

#[test]
fn sort_keeps_equal_dates_and_duplicates() {
    let mut items = vec![item(5), item(7), item(5), item(9)];
    sort_items_by_date(&mut items);
    let dates: Vec<i64> = items.iter().map(|i| i.date).collect();
    assert_eq!(dates, vec![9, 7, 5, 5]);
    assert_eq!(items.len(), 4);
}

#[test]
fn sort_handles_empty_and_singleton() {
    let mut items: Vec<Item> = Vec::new();
    sort_items_by_date(&mut items);
    assert!(items.is_empty());

    let mut items = vec![item(42)];
    sort_items_by_date(&mut items);
    assert_eq!(items.len(), 1);
    assert_eq!(items[0].date, 42);
}

#[test]
fn delivery_record_copies_every_field() {
    let it = item(100);
    let rec = DeliveryRecord::from_item(&it).expect("title and link are present");
    assert_eq!(rec.title, "entry 100");
    assert_eq!(rec.link, "https://example.com/100");
    assert_eq!(rec.description.as_deref(), Some("<p>text</p>"));
    assert_eq!(rec.content, None);
    assert_eq!(rec.date, 100);
    assert_eq!(rec.authors, it.authors);
}

#[test]
fn delivery_record_requires_a_title() {
    let mut it = item(100);
    it.title = None;
    match DeliveryRecord::from_item(&it) {
        Err(FeedError::Item(msg)) => assert_eq!(msg, "title is missing"),
        other => panic!("expected a missing-title error, got {other:?}"),
    }
}

#[test]
fn delivery_record_requires_a_link() {
    let mut it = item(100);
    it.link = None;
    match DeliveryRecord::from_item(&it) {
        Err(FeedError::Item(msg)) => assert_eq!(msg, "missing link"),
        other => panic!("expected a missing-link error, got {other:?}"),
    }
}

#[test]
fn delivery_record_through_the_conversion_trait() {
    let it = item(100);
    let rec: DeliveryRecord = TryFromItem::try_from_item(&it).expect("convertible");
    assert_eq!(rec.title, "entry 100");
}
