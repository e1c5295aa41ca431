use fanout::manager::ConnectionManager;
use fanout::message::WSMessage;
use tokio::sync::broadcast::error::TryRecvError;

fn text_payload(text: &str) -> serde_json::Value {
    let mut fields = serde_json::Map::new();
    fields.insert(
        "text".to_string(),
        serde_json::Value::String(text.to_string()),
    );
    serde_json::Value::Object(fields)
}

fn envelope(kind: &str, data: serde_json::Value) -> WSMessage {
    WSMessage {
        msg_type: kind.to_string(),
        data,
    }
}

#[test]
fn publish_reaches_both_subscribers_then_only_the_survivor() {
    let mut manager = ConnectionManager::new();
    let mut rx_a = manager.subscribe(42);
    let mut rx_b = manager.subscribe(42);

    manager.broadcast(42, envelope("new_comment", text_payload("hi")));

    let got_a = rx_a.try_recv().expect("first subscriber misses the publish");
    let got_b = rx_b.try_recv().expect("second subscriber misses the publish");
    assert_eq!(got_a.msg_type, "new_comment");
    assert_eq!(got_a.data, text_payload("hi"));
    assert_eq!(got_b.msg_type, "new_comment");
    assert_eq!(got_b.data, text_payload("hi"));

    // Session A closes: its receive half goes away, then it unsubscribes.
    drop(rx_a);
    manager.unsubscribe(42);

    manager.broadcast(42, envelope("new_comment", text_payload("again")));
    let second = rx_b.try_recv().expect("survivor misses the second publish");
    assert_eq!(second.msg_type, "new_comment");
    assert_eq!(second.data, text_payload("again"));

    // The topic map still reports exactly one live channel.
    assert_eq!(manager.topic_channel_count(), 1);
    assert_eq!(manager.topic_subscriber_count(42), Some(1));
}

#[test]
fn delivery_preserves_publish_order() {
    let mut manager = ConnectionManager::new();
    let mut rx = manager.subscribe(8);

    manager.broadcast(8, envelope("new_comment", text_payload("first")));
    manager.broadcast(8, envelope("new_comment", text_payload("second")));
    manager.broadcast(8, envelope("clear_chat", serde_json::Value::Null));

    assert_eq!(rx.try_recv().unwrap().data, text_payload("first"));
    assert_eq!(rx.try_recv().unwrap().data, text_payload("second"));
    assert_eq!(rx.try_recv().unwrap().msg_type, "clear_chat");
    assert!(matches!(rx.try_recv(), Err(TryRecvError::Empty)));
}

#[test]
fn publish_without_listeners_is_silently_dropped() {
    let manager = ConnectionManager::new();
    manager.broadcast(7, envelope("anything", serde_json::Value::Null));
    assert_eq!(manager.topic_channel_count(), 0);
    assert_eq!(manager.topic_subscriber_count(7), None);
}

#[test]
fn publish_stays_within_its_topic() {
    let mut manager = ConnectionManager::new();
    let mut rx_42 = manager.subscribe(42);
    let mut rx_43 = manager.subscribe(43);

    manager.broadcast(42, envelope("new_comment", text_payload("for 42 only")));

    assert_eq!(rx_42.try_recv().unwrap().data, text_payload("for 42 only"));
    assert!(matches!(rx_43.try_recv(), Err(TryRecvError::Empty)));
}

#[test]
fn notify_identity_reaches_every_device_and_presence_ends_with_the_last() {
    let mut manager = ConnectionManager::new();
    let mut phone = manager.subscribe_user(5);
    let mut laptop = manager.subscribe_user(5);
    assert_eq!(manager.get_online_users(), vec![5]);
    assert_eq!(manager.user_subscriber_count(5), Some(2));

    manager.notify_user(5, envelope("notification", text_payload("hello")));
    assert_eq!(phone.try_recv().unwrap().data, text_payload("hello"));
    assert_eq!(laptop.try_recv().unwrap().data, text_payload("hello"));

    drop(phone);
    manager.unsubscribe_user(5);
    assert_eq!(manager.get_online_users(), vec![5]);

    drop(laptop);
    manager.unsubscribe_user(5);
    assert!(manager.get_online_users().is_empty());
    assert_eq!(manager.user_subscriber_count(5), None);
}

#[test]
fn notify_does_not_cross_identities() {
    let mut manager = ConnectionManager::new();
    let mut alice = manager.subscribe_user(1);
    let mut bob = manager.subscribe_user(2);

    manager.notify_user(1, envelope("private_message", text_payload("psst")));

    assert_eq!(alice.try_recv().unwrap().msg_type, "private_message");
    assert!(matches!(bob.try_recv(), Err(TryRecvError::Empty)));
}

#[test]
fn broadcast_all_reaches_every_identity_channel_and_no_room() {
    let mut manager = ConnectionManager::new();
    let mut alice = manager.subscribe_user(1);
    let mut bob = manager.subscribe_user(2);
    // A room whose key collides with an identity key: independent maps.
    let mut room = manager.subscribe(1);

    manager.broadcast_all(envelope("agent_online", text_payload("someone")));

    assert_eq!(alice.try_recv().unwrap().msg_type, "agent_online");
    assert_eq!(bob.try_recv().unwrap().msg_type, "agent_online");
    assert!(matches!(room.try_recv(), Err(TryRecvError::Empty)));
}

#[test]
fn online_users_lists_each_identity_once() {
    let mut manager = ConnectionManager::new();
    let _a1 = manager.subscribe_user(3);
    let _a2 = manager.subscribe_user(3);
    let _b = manager.subscribe_user(1);
    let _c = manager.subscribe_user(2);

    let mut online = manager.get_online_users();
    online.sort();
    assert_eq!(online, vec![1, 2, 3]);
}

#[test]
fn subscribe_unsubscribe_churn_leaves_no_residue() {
    let mut manager = ConnectionManager::new();
    for _ in 0..10 {
        let rx = manager.subscribe(3);
        drop(rx);
        manager.unsubscribe(3);
    }
    assert_eq!(manager.topic_channel_count(), 0);
    assert_eq!(manager.topic_subscriber_count(3), None);

    for _ in 0..10 {
        let rx = manager.subscribe_user(3);
        drop(rx);
        manager.unsubscribe_user(3);
    }
    assert!(manager.get_online_users().is_empty());
}

#[test]
fn slow_consumer_loses_oldest_without_failing_the_publisher() {
    let mut manager = ConnectionManager::new();
    let mut rx = manager.subscribe(1);

    // Far more publishes than the channel buffers; none of them blocks or
    // fails the publisher.
    for i in 0..500 {
        manager.broadcast(1, envelope("new_comment", serde_json::Value::from(i)));
    }

    // The lagging receiver is told how much it lost, then resumes with
    // the oldest envelope still buffered.
    match rx.try_recv() {
        Err(TryRecvError::Lagged(lost)) => assert!(lost > 0),
        Err(_) => panic!("expected a lag report"),
        Ok(_) => panic!("a full channel must drop its oldest envelopes"),
    }
    let resumed = rx.try_recv().expect("the stream resumes after the lag report");
    assert_eq!(resumed.msg_type, "new_comment");
}

#[test]
fn unsubscribing_an_unknown_key_changes_nothing() {
    let mut manager = ConnectionManager::new();
    let _rx = manager.subscribe(1);
    manager.unsubscribe(99);
    manager.unsubscribe_user(99);
    assert_eq!(manager.topic_channel_count(), 1);
    assert!(manager.get_online_users().is_empty());
}

#[test]
fn default_registry_is_empty() {
    let manager = ConnectionManager::default();
    assert_eq!(manager.topic_channel_count(), 0);
    assert!(manager.get_online_users().is_empty());
}
