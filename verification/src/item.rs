//! The feed item value type.
//!
//! A feed-source adapter turns every fetched document entry into one [`Item`]
//! holding plain values only; the publish date is a Unix timestamp. Within
//! one fetch the adapter hands items over sorted by date, descending.

use vstd::prelude::*;

use crate::error::FeedError;

verus! {

/// An item's author, as the feed gives it.
#[derive(Debug, Clone, PartialEq, Eq)]
pub struct Author {
    pub name: String,
    pub email: Option<String>,
    pub uri: Option<String>,
}

/// Metadata of the feed an item came from.
#[derive(Debug, Clone, PartialEq, Eq)]
pub struct Source {
    pub title: String,
    pub url: Option<String>,
}

/// One feed entry, reduced to plain values. The publish date is a Unix
/// timestamp in seconds.
#[derive(Debug, Clone, PartialEq, Eq)]
pub struct Item {
    pub title: Option<String>,
    pub description: Option<String>,
    pub content: Option<String>,
    pub link: Option<String>,
    pub date: i64,
    pub authors: Vec<Author>,
    pub source: Source,
}

/// The items' dates are sorted descending: newest first.
pub open spec fn sorted_by_date_desc(items: Seq<Item>) -> bool {
    forall|i: int, j: int|
        0 <= i <= j < items.len() ==> #[trigger] items[i].date >= #[trigger] items[j].date
}

/// Sorts items by publish date, newest first, keeping exactly the same
/// items. The feed-source adapter runs every fetch through this before
/// handing the items to a watcher.
pub fn sort_items_by_date(items: &mut Vec<Item>)
    ensures
        sorted_by_date_desc(final(items)@),
        final(items)@.to_multiset() == old(items)@.to_multiset(),
{
    let mut i: usize = 1;
    while i < items.len()
        invariant
            1 <= i,
            items@.len() == old(items)@.len(),
            items@.to_multiset() == old(items)@.to_multiset(),
            items@.len() == 0 || (i <= items@.len() && sorted_by_date_desc(
                items@.subrange(0, i as int),
            )),
        decreases items@.len() - i,
    {
        let ghost pre = items@;
        let x = items.remove(i);
        proof {
            pre.remove_ensures(i as int);
            vstd::seq_lib::to_multiset_remove(pre, i as int);
            assert(items@.subrange(0, i as int) =~= pre.subrange(0, i as int));
        }
        let mut j: usize = 0;
        while j < i && items[j].date >= x.date
            invariant
                j <= i,
                i <= items@.len(),
                forall|t: int| 0 <= t < j ==> #[trigger] items@[t].date >= x.date,
            decreases i - j,
        {
            j += 1;
        }
        let ghost mid = items@;
        items.insert(j, x);
        proof {
            broadcast use vstd::multiset::group_multiset_axioms;

            mid.insert_ensures(j as int, x);
            vstd::seq_lib::to_multiset_insert(mid, j as int, x);
            assert(pre.contains(x)) by {
                assert(pre[i as int] == x);
            }
            vstd::seq_lib::to_multiset_contains(pre, x);
            assert(items@.to_multiset() =~= pre.to_multiset());
            assert(items@.to_multiset() == old(items)@.to_multiset());
            let p = items@.subrange(0, i + 1);
            assert forall|a: int, b: int| 0 <= a <= b < p.len() implies p[a].date >= p[b].date by {
                assert(p[a] == items@[a]);
                assert(p[b] == items@[b]);
                assert(sorted_by_date_desc(mid.subrange(0, i as int)));
                if a < j && b < j {
                    assert(mid.subrange(0, i as int)[a] == mid[a]);
                } else if b == j {
                    if a < j {
                        assert(items@[a].date >= x.date);
                    }
                } else if a == j && b > j {
                    assert(mid[j as int].date < x.date);
                    assert(mid.subrange(0, i as int)[j as int].date >= mid.subrange(
                        0,
                        i as int,
                    )[b - 1].date);
                } else if a < j && b > j {
                    assert(items@[a] == mid[a]);
                    assert(items@[b] == mid[b - 1]);
                    assert(mid.subrange(0, i as int)[a].date >= mid.subrange(0, i as int)[b
                        - 1].date);
                } else {
                    assert(a > j && b > j);
                    assert(mid.subrange(0, i as int)[a - 1].date >= mid.subrange(0, i as int)[b
                        - 1].date);
                }
            }
            assert(sorted_by_date_desc(p));
        }
        i += 1;
    }
    proof {
        if items@.len() > 0 {
            assert(items@.subrange(0, items@.len() as int) =~= items@);
        }
    }
}

/// A value a sink delivers, built from one item.
pub trait TryFromItem: Sized {
    type Error;

    fn try_from_item(item: &Item) -> core::result::Result<Self, Self::Error>;
}

/// What a sink delivers for one item: the item's fields with the required
/// ones — title and link — guaranteed present.
#[derive(Debug, Clone, PartialEq, Eq)]
pub struct DeliveryRecord {
    pub title: String,
    pub description: Option<String>,
    pub content: Option<String>,
    pub link: String,
    pub date: i64,
    pub authors: Vec<Author>,
}

/// The record `from_item` builds for `item`, when title and link are present.
pub open spec fn record_of(item: Item, rec: DeliveryRecord) -> bool {
    &&& item.title matches Some(t) && rec.title == t
    &&& item.link matches Some(l) && rec.link == l
    &&& rec.description == item.description
    &&& rec.content == item.content
    &&& rec.date == item.date
    &&& rec.authors@ == item.authors@
}

impl DeliveryRecord {
    /// Builds the delivery record for one item. Fails if and only if the
    /// item lacks a title or a link, the two fields every delivery needs.
    pub fn from_item(item: &Item) -> (r: core::result::Result<DeliveryRecord, FeedError>)
        ensures
            r is Ok <==> (item.title is Some && item.link is Some),
            r matches Ok(rec) ==> record_of(*item, rec),
            r matches Err(e) ==> e is Item,
    {
        let title = match &item.title {
            Some(t) => t.clone(),
            None => {
                return Err(FeedError::Item("title is missing".to_string()));
            },
        };
        let link = match &item.link {
            Some(l) => l.clone(),
            None => {
                return Err(FeedError::Item("missing link".to_string()));
            },
        };
        let rec = DeliveryRecord {
            title,
            description: clone_opt_string(&item.description),
            content: clone_opt_string(&item.content),
            link,
            date: item.date,
            authors: clone_authors(&item.authors),
        };
        Ok(rec)
    }
}

impl TryFromItem for DeliveryRecord {
    type Error = FeedError;

    fn try_from_item(item: &Item) -> core::result::Result<Self, FeedError> {
        DeliveryRecord::from_item(item)
    }
}

fn clone_opt_string(s: &Option<String>) -> (r: Option<String>)
    ensures
        r == *s,
{
    match s {
        Some(v) => Some(v.clone()),
        None => None,
    }
}

fn clone_authors(authors: &Vec<Author>) -> (r: Vec<Author>)
    ensures
        r@ == authors@,
{
    let mut r: Vec<Author> = Vec::new();
    let mut i: usize = 0;
    while i < authors.len()
        invariant
            i <= authors.len(),
            r@ =~= authors@.subrange(0, i as int),
        decreases authors.len() - i,
    {
        let a = &authors[i];
        let copy = Author {
            name: a.name.clone(),
            email: clone_opt_string(&a.email),
            uri: clone_opt_string(&a.uri),
        };
        assert(copy == authors@[i as int]);
        r.push(copy);
        i += 1;
    }
    assert(r@ =~= authors@);
    r
}

} // verus!
