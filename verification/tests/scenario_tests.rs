//! End-to-end scenarios over the library's pure core: one supervisor, one
//! subscription polled by hand, and target workers deciding per message.

use pele::config::Config;
use pele::server::{handle_target_message, server_init, RemoveError};
use pele::subscription::Subscription;
use pele::target::Target;

fn target(id: usize) -> Target {
    Target {
        id,
        name: format!("target-{}", id),
        url: String::from("https://push.example.org"),
        interval: 60,
    }
}

fn feed_with_item_a() -> Vec<u8> {
    let xml = "<?xml version=\"1.0\"?>\
<rss version=\"2.0\"><channel>\
<title>news</title><link>https://example.org</link><description>d</description>\
<item><title>A</title><pubDate>Thu, 02 Jan 2020 00:00:00 +0000</pubDate></item>\
</channel></rss>";
    xml.as_bytes().to_vec()
}

fn empty_feed() -> Vec<u8> {
    let xml = "<?xml version=\"1.0\"?>\
<rss version=\"2.0\"><channel>\
<title>news</title><link>https://example.org</link><description>d</description>\
</channel></rss>";
    xml.as_bytes().to_vec()
}

fn subscription_s() -> Subscription {
    Subscription {
        id: 1,
        url: String::from("https://feeds.example.org/news"),
        name: String::from("S"),
        interval: 1,
        last_update: 0,
        push_targets: vec![7],
    }
}

#[test]
fn single_item_reaches_only_its_target() {
    // one subscription S (interval 1, push_targets [7]) and one target T7;
    // the feed returns item "A" on the first poll and nothing afterwards:
    // exactly one delivery to T7 and none to any other target
    let t7 = target(7);
    let t9 = target(9);
    let mut st = server_init(
        Config::default(),
        vec![t7.clone(), t9.clone()],
        vec![subscription_s()],
    );
    let mut s = st.subscriptions[0].clone();

    let first_poll = s.process_feed(&feed_with_item_a()).unwrap();
    assert_eq!(first_poll.len(), 1);
    let mut deliveries_t7 = Vec::new();
    let mut deliveries_t9 = Vec::new();
    for m in first_poll {
        if let Some(line) = handle_target_message(&t7, m.clone()) {
            deliveries_t7.push(line);
        }
        if let Some(line) = handle_target_message(&t9, m) {
            deliveries_t9.push(line);
        }
    }
    assert_eq!(deliveries_t7, vec![String::from("A updated.")]);
    assert!(deliveries_t9.is_empty());

    let second_poll = s.process_feed(&empty_feed()).unwrap();
    assert!(second_poll.is_empty());
    let third_poll = s.process_feed(&feed_with_item_a()).unwrap();
    assert!(third_poll.is_empty());
}

#[test]
fn late_target_outside_push_set_gets_nothing() {
    // a second target T8 added after startup, while S still pushes to [7]:
    // no item from S may ever reach T8
    let mut st = server_init(Config::default(), vec![target(7)], vec![subscription_s()]);
    let t8 = target(8);
    st.add_target(t8.clone());
    assert_eq!(st.targets.len(), 2);

    let mut s = st.subscriptions[0].clone();
    let msgs = s.process_feed(&feed_with_item_a()).unwrap();
    assert_eq!(msgs.len(), 1);
    for m in msgs {
        assert_eq!(handle_target_message(&t8, m), None);
    }
}

#[test]
fn removed_subscription_emits_nothing_further() {
    // removing S mid-interval tears down its worker: its registration is
    // gone, so the runtime cancels the worker and no further poll happens
    let mut st = server_init(Config::default(), vec![target(7)], vec![subscription_s()]);
    assert_eq!(st.remove_subscription(1), Ok(()));
    assert!(st.subscriptions.is_empty());
    // the registration is gone: a second remove reports NotFound, and the
    // runtime spawns polls only for registered subscriptions
    assert_eq!(st.remove_subscription(1), Err(RemoveError::NotFound));
    assert_eq!(st.handlers.len(), 1);
    assert!(st.handlers.get(&1).is_none());
}
