//! The unit of information flowing from a subscription worker to target
//! workers: one feed item plus the identifiers of the targets it should reach.

use vstd::prelude::*;

verus! {

/// A feed entry as the library reads it: the entry's title, if any, and its
/// publish time as a Unix timestamp, if the entry carried a parsable one.
#[derive(Debug, Clone)]
pub struct FeedItem {
    pub title: Option<String>,
    pub pub_time: Option<u64>,
}

/// A feed entry as the feed parser hands it over, before its publish date
/// has been resolved to a timestamp.
#[derive(Debug, Clone)]
pub struct RawItem {
    pub title: Option<String>,
    pub pub_date: Option<String>,
}

/// One feed item together with the `push_targets` snapshot of the
/// subscription that produced it, taken at emission time.
#[derive(Debug, Clone)]
pub struct UpdateMessage {
    pub item: FeedItem,
    pub targets: Vec<usize>,
}

} // verus!
