use pele::config::Config;
use pele::message::{FeedItem, UpdateMessage};
use pele::server::{handle_target_message, server_init, RemoveError};
use pele::subscription::Subscription;
use pele::target::Target;

fn target(id: usize) -> Target {
    Target {
        id,
        name: format!("target-{}", id),
        url: String::from("https://push.example.org"),
        interval: 60,
    }
}

fn subscription(id: usize, push_targets: Vec<usize>) -> Subscription {
    Subscription {
        id,
        url: String::from("https://feeds.example.org/news"),
        name: String::from("news"),
        interval: 1,
        last_update: 0,
        push_targets,
    }
}

#[test]
fn init_registers_every_worker() {
    let st = server_init(Config::default(), vec![target(7)], vec![subscription(1, vec![7])]);
    assert_eq!(st.targets.len(), 1);
    assert_eq!(st.subscriptions.len(), 1);
    assert_eq!(st.handlers.len(), 2);
}

#[test]
fn remove_target_requires_target_kind() {
    // a subscription's identifier is not removable as a target, and the
    // failed remove leaves everything in place
    let mut st = server_init(Config::default(), vec![target(7)], vec![subscription(1, vec![7])]);
    assert_eq!(st.remove_target(1), Err(RemoveError::NotFound));
    assert_eq!(st.targets.len(), 1);
    assert_eq!(st.subscriptions.len(), 1);
    assert_eq!(st.handlers.len(), 2);
    assert_eq!(st.remove_target(7), Ok(()));
    assert_eq!(st.targets.len(), 0);
    assert_eq!(st.handlers.len(), 1);
}

#[test]
fn remove_is_idempotent() {
    // removing an id never added, or already removed, reports NotFound and
    // changes nothing
    let mut st = server_init(Config::default(), vec![target(7)], Vec::new());
    assert_eq!(st.remove_target(9), Err(RemoveError::NotFound));
    assert_eq!(st.targets.len(), 1);
    assert_eq!(st.remove_target(7), Ok(()));
    assert_eq!(st.targets.len(), 0);
    assert_eq!(st.remove_target(7), Err(RemoveError::NotFound));
    assert_eq!(st.targets.len(), 0);
    assert_eq!(st.handlers.len(), 0);
}

#[test]
fn add_remove_round_trip() {
    let mut st = server_init(Config::default(), vec![target(3)], Vec::new());
    st.add_target(target(8));
    assert_eq!(st.targets.len(), 2);
    assert_eq!(st.handlers.len(), 2);
    assert_eq!(st.remove_target(8), Ok(()));
    assert_eq!(st.targets.len(), 1);
    assert_eq!(st.targets[0].id, 3);
    assert_eq!(st.handlers.len(), 1);
    assert_eq!(st.remove_target(8), Err(RemoveError::NotFound));
}

#[test]
fn remove_subscription_symmetric() {
    let mut st = server_init(Config::default(), Vec::new(), vec![subscription(1, vec![7])]);
    assert_eq!(st.remove_subscription(2), Err(RemoveError::NotFound));
    st.add_subscription(subscription(2, vec![]));
    assert_eq!(st.subscriptions.len(), 2);
    assert_eq!(st.remove_subscription(2), Ok(()));
    assert_eq!(st.subscriptions.len(), 1);
    assert_eq!(st.subscriptions[0].id, 1);
    assert_eq!(st.remove_subscription(2), Err(RemoveError::NotFound));
}

#[test]
fn update_config_replaces_config() {
    let mut st = server_init(Config::default(), Vec::new(), Vec::new());
    let mut c = Config::default();
    c.server.port = 8080;
    c.server.queue_size = 64;
    st.update_config(c);
    assert_eq!(st.config.server.port, 8080);
    assert_eq!(st.config.server.queue_size, 64);
    assert_eq!(st.targets.len(), 0);
}

fn message(title: &str, targets: Vec<usize>) -> UpdateMessage {
    UpdateMessage {
        item: FeedItem { title: Some(String::from(title)), pub_time: Some(1) },
        targets,
    }
}

#[test]
fn message_reaches_only_named_target() {
    let m = message("A", vec![7]);
    let line = handle_target_message(&target(7), m.clone());
    assert_eq!(line.as_deref(), Some("A updated."));
    assert_eq!(handle_target_message(&target(8), m), None);
}

#[test]
fn message_with_empty_target_set_reaches_nobody() {
    let m = message("A", vec![]);
    assert_eq!(handle_target_message(&target(7), m), None);
}
