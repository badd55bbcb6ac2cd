//! A feed subscription and its fetch-cycle logic: which fetched items count
//! as new relative to the watermark, how the watermark advances, and which
//! update messages one cycle emits.

use vstd::prelude::*;

use crate::message::{FeedItem, RawItem, UpdateMessage};

verus! {

/// A feed subscription. `last_update` is the watermark: the Unix timestamp of
/// the most recent item already seen; `push_targets` lists the targets that
/// should receive this subscription's updates.
#[derive(Debug, Clone)]
pub struct Subscription {
    pub id: usize,
    pub url: String,
    pub name: String,
    pub interval: u64,
    pub last_update: u64,
    pub push_targets: Vec<usize>,
}

/// Why a fetch cycle failed. Failures leave the subscription unchanged; the
/// caller retries at the next scheduled poll.
#[derive(Debug, Clone, Copy, PartialEq, Eq, Structural)]
pub enum FeedError {
    /// The fetched bytes do not parse as an RSS document.
    Parse,
}

/// The error type of the feed parser.
#[verifier::external_type_specification]
#[verifier::external_body]
pub struct ExRssError(rss::Error);

/// The items of the RSS document that the given bytes hold — their titles
/// and publish-date strings — or `None` when the bytes do not parse as one.
/// The result is a function of the bytes alone.
pub uninterp spec fn feed_channel_items(bytes: Seq<u8>) -> Option<Seq<RawItem>>;

/// Relies on `rss::Channel::read_from` to parse an RSS document from bytes;
/// each item's `title` and `pub_date` accessors hand its fields out, copied
/// here into plain strings.
#[verifier::external_body]
fn read_feed_items(bytes: &[u8]) -> (r: Result<Vec<RawItem>, rss::Error>)
    ensures
        (r is Ok) == (feed_channel_items(bytes@) is Some),
        r matches Ok(items) ==> Some(items@) == feed_channel_items(bytes@),
{
    let channel = rss::Channel::read_from(bytes)?;
    Ok(channel.items().iter().map(|it| RawItem {
        title: it.title().map(|s| s.to_owned()),
        pub_date: it.pub_date().map(|s| s.to_owned()),
    }).collect())
}

/// The Unix timestamp (cast to `u64`) that the library reads from an RFC 2822
/// date string, or `None` when the string does not parse as one. The result
/// is a function of the string alone.
pub uninterp spec fn rfc2822_pub_time(s: Seq<char>) -> Option<u64>;

/// Relies on chrono's `DateTime::parse_from_rfc2822` and `DateTime::timestamp`:
/// both are deterministic in the date string, so the result depends on the
/// characters alone.
#[verifier::external_body]
fn parse_pub_time(s: &str) -> (r: Option<u64>)
    ensures
        r == rfc2822_pub_time(s@),
{
    match chrono::DateTime::parse_from_rfc2822(s) {
        Ok(t) => Some(t.timestamp() as u64),
        Err(_) => None,
    }
}

/// An item counts as new when it carries a publish time above the watermark.
pub open spec fn is_new(wm: u64, item: FeedItem) -> bool {
    match item.pub_time {
        Some(t) => t > wm,
        None => false,
    }
}

/// The watermark after seeing one item: advanced to the item's publish time
/// when the item is new, unchanged otherwise.
pub open spec fn step_wm(wm: u64, item: FeedItem) -> u64 {
    match item.pub_time {
        Some(t) => if t > wm { t } else { wm },
        None => wm,
    }
}

/// The watermark after one fetch cycle over the given items, left to right.
pub open spec fn wm_after(wm: u64, items: Seq<FeedItem>) -> u64
    decreases items.len(),
{
    if items.len() == 0 {
        wm
    } else {
        wm_after(step_wm(wm, items.first()), items.drop_first())
    }
}

/// The items one fetch cycle keeps: each item that is new relative to the
/// running watermark, in discovery order.
pub open spec fn kept_items(wm: u64, items: Seq<FeedItem>) -> Seq<FeedItem>
    decreases items.len(),
{
    if items.len() == 0 {
        Seq::empty()
    } else if is_new(wm, items.first()) {
        seq![items.first()] + kept_items(step_wm(wm, items.first()), items.drop_first())
    } else {
        kept_items(wm, items.drop_first())
    }
}

/// The publish time a raw item resolves to.
pub open spec fn raw_time(item: RawItem) -> Option<u64> {
    match item.pub_date {
        Some(s) => rfc2822_pub_time(s@),
        None => None,
    }
}

/// A raw item with its publish date resolved to a timestamp.
pub open spec fn resolved_item(item: RawItem) -> FeedItem {
    FeedItem { title: item.title, pub_time: raw_time(item) }
}

/// All raw items with their publish dates resolved.
pub open spec fn resolved_items(items: Seq<RawItem>) -> Seq<FeedItem> {
    items.map_values(|it: RawItem| resolved_item(it))
}

/// The items a sequence of update messages carries.
pub open spec fn message_items(msgs: Seq<UpdateMessage>) -> Seq<FeedItem> {
    msgs.map_values(|m: UpdateMessage| m.item)
}

fn copy_ids(v: &Vec<usize>) -> (r: Vec<usize>)
    ensures
        r@ == v@,
{
    let mut r: Vec<usize> = Vec::new();
    let mut i: usize = 0;
    while i < v.len()
        invariant
            i <= v.len(),
            r@ == v@.take(i as int),
        decreases v.len() - i,
    {
        r.push(v[i]);
        proof {
            assert(v@.take(i as int).push(v@[i as int]) =~= v@.take(i + 1 as int));
        }
        i += 1;
    }
    proof {
        assert(v@.take(v@.len() as int) =~= v@);
    }
    r
}

/// Resolve each raw item's publish date to a timestamp.
pub fn resolve_items(raw: Vec<RawItem>) -> (items: Vec<FeedItem>)
    ensures
        items@ == resolved_items(raw@),
{
    let ghost raw0 = raw@;
    let mut raw = raw;
    let mut items: Vec<FeedItem> = Vec::new();
    let ghost mut i: int = 0;
    while raw.len() > 0
        invariant
            0 <= i <= raw0.len(),
            raw@ == raw0.skip(i),
            items@ == resolved_items(raw0).take(i),
        decreases raw@.len(),
    {
        proof {
            assert(raw0.skip(i).first() == raw0[i]);
        }
        let it = raw.remove(0);
        let pt = match &it.pub_date {
            Some(s) => parse_pub_time(s.as_str()),
            None => None,
        };
        let ghost it0 = it;
        items.push(FeedItem { title: it.title, pub_time: pt });
        proof {
            assert(raw0.skip(i).drop_first() =~= raw0.skip(i + 1));
            assert(resolved_items(raw0)[i] == resolved_item(raw0[i]));
            assert(items@ =~= resolved_items(raw0).take(i + 1));
            i = i + 1;
        }
    }
    proof {
        assert(resolved_items(raw0).take(i) =~= resolved_items(raw0));
    }
    items
}

impl Subscription {
    /// The pure core of one fetch-and-publish cycle: keep the items that are
    /// new relative to the running watermark, advance the watermark to the
    /// maximum publish time seen, and build one update message per kept item,
    /// each carrying the current `push_targets` snapshot.
    pub fn check_items(&mut self, items: Vec<FeedItem>) -> (msgs: Vec<UpdateMessage>)
        ensures
            final(self).last_update == wm_after(old(self).last_update, items@),
            old(self).last_update <= final(self).last_update,
            message_items(msgs@) == kept_items(old(self).last_update, items@),
            forall|j: int| 0 <= j < msgs@.len() ==> (#[trigger] msgs@[j]).targets@ == old(self).push_targets@,
            final(self).id == old(self).id,
            final(self).url == old(self).url,
            final(self).name == old(self).name,
            final(self).interval == old(self).interval,
            final(self).push_targets == old(self).push_targets,
    {
        let ghost orig = items@;
        let ghost wm0 = self.last_update;
        let mut items = items;
        let mut msgs: Vec<UpdateMessage> = Vec::new();
        let ghost mut i: int = 0;
        proof {
            assert(orig.skip(0) =~= orig);
            assert(message_items(msgs@) + kept_items(self.last_update, orig) =~= kept_items(
                wm0,
                orig,
            ));
        }
        while items.len() > 0
            invariant
                0 <= i <= orig.len(),
                items@ == orig.skip(i),
                wm_after(wm0, orig) == wm_after(self.last_update, orig.skip(i)),
                kept_items(wm0, orig) == message_items(msgs@) + kept_items(self.last_update, orig.skip(i)),
                wm0 <= self.last_update,
                forall|j: int| 0 <= j < msgs@.len() ==> (#[trigger] msgs@[j]).targets@ == self.push_targets@,
                self.id == old(self).id,
                self.url == old(self).url,
                self.name == old(self).name,
                self.interval == old(self).interval,
                self.push_targets == old(self).push_targets,
                wm0 == old(self).last_update,
            decreases items@.len(),
        {
            proof {
                assert(orig.skip(i).first() == orig[i]);
                assert(orig.skip(i).drop_first() =~= orig.skip(i + 1));
            }
            let t_opt = item_time(&items);
            let item = items.remove(0);
            let ghost item0 = item;
            let ghost wm_cur = self.last_update;
            match t_opt {
                Some(t) if t > self.last_update => {
                    self.last_update = t;
                    let targets = copy_ids(&self.push_targets);
                    let ghost msgs0 = msgs@;
                    msgs.push(UpdateMessage { item, targets });
                    proof {
                        assert(message_items(msgs@) =~= message_items(msgs0).push(item0));
                        assert(message_items(msgs0) + (seq![item0] + kept_items(
                            self.last_update,
                            orig.skip(i + 1),
                        )) =~= message_items(msgs@) + kept_items(self.last_update, orig.skip(i + 1)));
                    }
                },
                _ => {
                    proof {
                        assert(!is_new(wm_cur, item0));
                    }
                },
            }
            proof {
                i = i + 1;
            }
        }
        proof {
            assert(orig.skip(i) =~= Seq::<FeedItem>::empty());
            assert(kept_items(wm0, orig) =~= message_items(msgs@));
        }
        msgs
    }

    /// One full fetch cycle on the bytes of a fetched feed document: parse it,
    /// resolve each item's publish date, keep the new items and advance the
    /// watermark. A parse failure leaves the subscription unchanged.
    pub fn process_feed(&mut self, bytes: &[u8]) -> (r: Result<Vec<UpdateMessage>, FeedError>)
        ensures
            (r is Ok) == (feed_channel_items(bytes@) is Some),
            r matches Ok(msgs) ==> {
                let items = resolved_items(feed_channel_items(bytes@).unwrap());
                &&& final(self).last_update == wm_after(old(self).last_update, items)
                &&& message_items(msgs@) == kept_items(old(self).last_update, items)
                &&& forall|j: int| 0 <= j < msgs@.len() ==> (#[trigger] msgs@[j]).targets@
                    == old(self).push_targets@
            },
            r is Err ==> *final(self) == *old(self) && r == Err::<Vec<UpdateMessage>, FeedError>(
                FeedError::Parse,
            ),
            old(self).last_update <= final(self).last_update,
            final(self).id == old(self).id,
            final(self).url == old(self).url,
            final(self).name == old(self).name,
            final(self).interval == old(self).interval,
            final(self).push_targets == old(self).push_targets,
    {
        let raw = match read_feed_items(bytes) {
            Ok(raw) => raw,
            Err(_) => {
                return Err(FeedError::Parse);
            },
        };
        let items = resolve_items(raw);
        Ok(self.check_items(items))
    }
}

fn item_time(items: &Vec<FeedItem>) -> (t: Option<u64>)
    requires
        items@.len() > 0,
    ensures
        t == items@.first().pub_time,
{
    match &items[0].pub_time {
        Some(t) => Some(*t),
        None => None,
    }
}

/// Watermark monotonicity: a fetch cycle leaves the watermark unchanged or
/// strictly increased, never decreased.
pub proof fn lemma_watermark_monotonic(wm: u64, items: Seq<FeedItem>)
    ensures
        wm <= wm_after(wm, items),
    decreases items.len(),
{
    if items.len() > 0 {
        lemma_watermark_monotonic(step_wm(wm, items.first()), items.drop_first());
    }
}

/// The watermark after a cycle bounds every publish time the cycle saw.
pub proof fn lemma_wm_after_bounds(wm: u64, items: Seq<FeedItem>)
    ensures
        forall|k: int|
            0 <= k < items.len() && (#[trigger] items[k]).pub_time is Some ==> items[k].pub_time.unwrap()
                <= wm_after(wm, items),
    decreases items.len(),
{
    if items.len() > 0 {
        lemma_wm_after_bounds(step_wm(wm, items.first()), items.drop_first());
        lemma_watermark_monotonic(step_wm(wm, items.first()), items.drop_first());
        assert forall|k: int|
            0 <= k < items.len() && (#[trigger] items[k]).pub_time is Some implies items[k].pub_time.unwrap()
            <= wm_after(wm, items) by {
            if k > 0 {
                assert(items[k] == items.drop_first()[k - 1]);
            }
        }
    }
}

/// A cycle whose watermark already bounds every publish time keeps nothing.
pub proof fn lemma_nothing_new(wm: u64, items: Seq<FeedItem>)
    requires
        forall|k: int|
            0 <= k < items.len() && (#[trigger] items[k]).pub_time is Some ==> items[k].pub_time.unwrap()
                <= wm,
    ensures
        kept_items(wm, items) == Seq::<FeedItem>::empty(),
        wm_after(wm, items) == wm,
    decreases items.len(),
{
    if items.len() > 0 {
        assert(items[0] == items.first());
        assert(forall|k: int|
            0 <= k < items.drop_first().len() ==> items.drop_first()[k] == items[k + 1]);
        lemma_nothing_new(wm, items.drop_first());
    }
}

/// No duplicate delivery: over items with strictly increasing publish times,
/// all above the initial watermark, one cycle emits each item exactly once,
/// and a second cycle over the same items — e.g. after a restart with the
/// persisted watermark — emits none of them again.
pub proof fn lemma_no_duplicate_delivery(wm: u64, items: Seq<FeedItem>)
    requires
        forall|k: int| 0 <= k < items.len() ==> (#[trigger] items[k]).pub_time is Some,
        forall|k: int| 0 <= k < items.len() ==> (#[trigger] items[k]).pub_time.unwrap() > wm,
        forall|k1: int, k2: int|
            0 <= k1 < k2 < items.len() ==> items[k1].pub_time.unwrap() < items[k2].pub_time.unwrap(),
    ensures
        kept_items(wm, items) == items,
        kept_items(wm_after(wm, items), items) == Seq::<FeedItem>::empty(),
    decreases items.len(),
{
    if items.len() == 0 {
        assert(kept_items(wm, items) =~= items);
    } else {
        let first = items.first();
        let rest = items.drop_first();
        assert(items[0] == first);
        assert(forall|k: int| 0 <= k < rest.len() ==> rest[k] == items[k + 1]);
        let t0 = first.pub_time.unwrap();
        assert(is_new(wm, first));
        assert(step_wm(wm, first) == t0);
        assert(forall|k: int| 0 <= k < rest.len() ==> (#[trigger] rest[k]).pub_time.unwrap() > t0);
        lemma_no_duplicate_delivery(t0, rest);
        assert(kept_items(wm, items) =~= items);
    }
    lemma_wm_after_bounds(wm, items);
    lemma_nothing_new(wm_after(wm, items), items);
}

} // verus!
