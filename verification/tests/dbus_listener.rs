// Tests of the listener: the reconnecting state machine and the decoder.

use cosmic_applet_notifications::dbus::listener::{
    check_member, collect_hints, generate_notification_id, grow_delay, id_from_hash,
    notification_from, parse_notification_signal, received, retry_connect, ListenerAction,
    ListenerEvent,
    ListenerState, NotificationError, NotifyArguments, INITIAL_RECONNECT_DELAY_MS,
    MAX_CONNECTION_RETRIES, MAX_RECONNECT_DELAY_MS, NOTIFICATION_BUFFER_SIZE,
};
use cosmic_applet_notifications::dbus::{HintValue, Urgency};
use cosmic_applet_notifications::time::Timestamp;
use std::collections::HashMap;
use zbus::zvariant::Value;

#[test]
fn test_generate_notification_id() {
    let id1 = generate_notification_id("firefox", "Download complete");
    let id2 = generate_notification_id("firefox", "Download complete");

    // IDs should be different due to timestamp
    assert_ne!(id1, id2);
}

#[test]
fn test_generate_notification_id_different_apps() {
    let id1 = generate_notification_id("firefox", "Test");
    let id2 = generate_notification_id("chrome", "Test");

    // Different apps should produce different IDs
    assert_ne!(id1, id2);
}

#[test]
fn id_is_the_low_half_of_the_hash() {
    assert_eq!(id_from_hash(0), 0);
    assert_eq!(id_from_hash(0x1234_5678_9abc_def0), 0x9abc_def0);
    assert_eq!(id_from_hash(u64::MAX), u32::MAX);
    assert_eq!(id_from_hash(0x1_0000_0000), 0);
}

fn fail_times(failures: u32) -> (ListenerState, Vec<u64>) {
    let (mut state, mut action) = ListenerState::new().step(ListenerEvent::Started);
    assert_eq!(action, ListenerAction::Connect);
    let mut delays = Vec::new();
    for _ in 0..failures {
        assert_eq!(action, ListenerAction::Connect);
        let (failed, wait) = state.step(ListenerEvent::ConnectFailed);
        match wait {
            ListenerAction::Wait { delay_ms } => delays.push(delay_ms),
            other => panic!("expected a wait, got {:?}", other),
        }
        let next = failed.step(ListenerEvent::DelayElapsed);
        state = next.0;
        action = next.1;
        if state.has_given_up() {
            break;
        }
    }
    (state, delays)
}

#[test]
fn backoff_delays_double_up_to_the_cap() {
    let (state, delays) = fail_times(MAX_CONNECTION_RETRIES);
    assert_eq!(
        delays,
        vec![100, 200, 400, 800, 1_600, 3_200, 6_400, 12_800, 25_600, 30_000]
    );
    assert_eq!(delays[0], INITIAL_RECONNECT_DELAY_MS);
    assert_eq!(*delays.last().unwrap(), MAX_RECONNECT_DELAY_MS);
    assert_eq!(state, ListenerState::GaveUp);
    assert!(state.has_given_up());
}

#[test]
fn attempts_cease_after_the_tenth_failure() {
    let (state, delays) = fail_times(9);
    assert_eq!(delays.len(), 9);
    assert_eq!(state, ListenerState::Connecting { failures: 9, delay_ms: 30_000 });

    let (state, _) = fail_times(25);
    assert_eq!(state, ListenerState::GaveUp);
    for event in [
        ListenerEvent::Started,
        ListenerEvent::Connected,
        ListenerEvent::ConnectFailed,
        ListenerEvent::DelayElapsed,
        ListenerEvent::SubscriptionReady,
        ListenerEvent::SubscribeFailed,
        ListenerEvent::MessageHandled,
        ListenerEvent::StreamEnded,
    ] {
        assert_eq!(state.step(event), (ListenerState::GaveUp, ListenerAction::Stop));
    }
}

#[test]
fn a_connection_leads_to_streaming() {
    let (state, _) = ListenerState::new().step(ListenerEvent::Started);
    let (state, action) = state.step(ListenerEvent::Connected);
    assert_eq!(action, ListenerAction::Subscribe { buffer_size: 128 });
    assert_eq!(NOTIFICATION_BUFFER_SIZE, 128);
    let (state, action) = state.step(ListenerEvent::SubscriptionReady);
    assert_eq!((state, action), (ListenerState::Streaming, ListenerAction::Receive));
    let (state, action) = state.step(ListenerEvent::MessageHandled);
    assert_eq!((state, action), (ListenerState::Streaming, ListenerAction::Receive));
}

#[test]
fn the_end_of_a_stream_starts_a_fresh_cycle() {
    let (state, _) = fail_times(3);
    let (state, _) = state.step(ListenerEvent::Connected);
    let (state, _) = state.step(ListenerEvent::SubscriptionReady);
    let (state, action) = state.step(ListenerEvent::StreamEnded);
    assert_eq!(action, ListenerAction::Connect);
    assert_eq!(state, ListenerState::Connecting { failures: 0, delay_ms: 100 });
    let (_, action) = state.step(ListenerEvent::ConnectFailed);
    assert_eq!(action, ListenerAction::Wait { delay_ms: 100 });
}

#[test]
fn a_failed_subscription_counts_as_a_failed_attempt() {
    let (state, _) = fail_times(2);
    let (state, _) = state.step(ListenerEvent::Connected);
    assert_eq!(state, ListenerState::Subscribed { failures: 2, delay_ms: 400 });
    let (state, action) = state.step(ListenerEvent::SubscribeFailed);
    assert_eq!(action, ListenerAction::Wait { delay_ms: 400 });
    assert_eq!(state, ListenerState::Backoff { failures: 3, delay_ms: 400 });
}

#[test]
fn an_event_that_is_not_awaited_changes_nothing() {
    let start = ListenerState::new();
    assert_eq!(start.step(ListenerEvent::Connected), (start, ListenerAction::Idle));
    let connecting = ListenerState::Connecting { failures: 1, delay_ms: 200 };
    assert_eq!(connecting.step(ListenerEvent::StreamEnded), (connecting, ListenerAction::Connect));
    let waiting = ListenerState::Backoff { failures: 1, delay_ms: 100 };
    assert_eq!(
        waiting.step(ListenerEvent::MessageHandled),
        (waiting, ListenerAction::Wait { delay_ms: 100 })
    );
    assert_eq!(
        ListenerState::Streaming.step(ListenerEvent::Started),
        (ListenerState::Streaming, ListenerAction::Receive)
    );
}

#[test]
fn delays_grow_without_overflow() {
    assert_eq!(grow_delay(0), 0);
    assert_eq!(grow_delay(100), 200);
    assert_eq!(grow_delay(14_999), 29_998);
    assert_eq!(grow_delay(15_000), 30_000);
    assert_eq!(grow_delay(30_000), 30_000);
    assert_eq!(grow_delay(u64::MAX), 30_000);
    assert_eq!(
        retry_connect(u32::MAX, 5),
        (
            ListenerState::Backoff { failures: u32::MAX, delay_ms: 5 },
            ListenerAction::Wait { delay_ms: 5 }
        )
    );
}

#[test]
fn member_check_refuses_other_signals() {
    assert!(check_member(Some("Notify".to_string())).is_ok());
    match check_member(None) {
        Err(NotificationError::MissingMember) => {}
        other => panic!("expected MissingMember, got {:?}", other),
    }
    match check_member(Some("ActionInvoked".to_string())) {
        Err(NotificationError::UnexpectedSignal(member)) => assert_eq!(member, "ActionInvoked"),
        other => panic!("expected UnexpectedSignal, got {:?}", other),
    }
    match check_member(Some("notify".to_string())) {
        Err(NotificationError::UnexpectedSignal(member)) => assert_eq!(member, "notify"),
        other => panic!("expected UnexpectedSignal, got {:?}", other),
    }
}

#[test]
fn error_messages() {
    assert_eq!(
        NotificationError::MissingMember.message(),
        "D-Bus message missing member field"
    );
    assert_eq!(
        NotificationError::UnexpectedSignal("Other".to_string()).message(),
        "Unexpected signal: Other, expected 'Notify'"
    );
}

#[test]
fn notification_from_arguments() {
    let arguments = NotifyArguments {
        app_name: "mail".to_string(),
        replaces_id: 4,
        app_icon: "mail-icon".to_string(),
        summary: "New mail".to_string(),
        body: "From a friend".to_string(),
        actions: vec!["default".to_string(), "Open".to_string(), "orphan".to_string()],
        hints: vec![
            ("urgency".to_string(), HintValue::Byte(0)),
            ("urgency".to_string(), HintValue::Byte(2)),
            ("resident".to_string(), HintValue::Bool(true)),
        ],
        expire_timeout: 2500,
    };
    let n = notification_from(arguments, 17, Timestamp::new(3, 4));
    assert_eq!(n.id, 17);
    assert_eq!(n.app_name, "mail");
    assert_eq!(n.replaces_id, 4);
    assert_eq!(n.app_icon, "mail-icon");
    assert_eq!(n.summary, "New mail");
    assert_eq!(n.body, "From a friend");
    assert_eq!(n.actions.len(), 1);
    assert_eq!(n.actions[0].key, "default");
    assert_eq!(n.actions[0].label, "Open");
    assert_eq!(n.hints.urgency, Urgency::Critical);
    assert!(n.hints.resident);
    assert_eq!(n.raw_hints.len(), 2);
    assert_eq!(n.expire_timeout, 2500);
    assert_eq!(n.timestamp, Timestamp::new(3, 4));
}

#[test]
fn collect_hints_lets_the_later_entry_win() {
    let hints = collect_hints(vec![
        ("a".to_string(), HintValue::Int32(1)),
        ("b".to_string(), HintValue::Int32(2)),
        ("a".to_string(), HintValue::Int32(3)),
    ]);
    assert_eq!(hints.len(), 2);
    assert_eq!(hints.key_at(0), "a");
    assert_eq!(hints.key_at(1), "b");
    match hints.get("a") {
        Some(HintValue::Int32(3)) => {}
        other => panic!("expected 3, got {:?}", other),
    }
}

fn notify_signal(member: &str) -> zbus::Message {
    let mut hints: HashMap<&str, Value> = HashMap::new();
    hints.insert("urgency", Value::U8(2));
    hints.insert("transient", Value::Bool(true));
    hints.insert("category", Value::from("im.received"));
    hints.insert("x", Value::I32(-12));
    hints.insert("desktop-entry", Value::Value(Box::new(Value::from("chat"))));
    hints.insert("image-data", Value::U32(7));
    zbus::Message::signal(
        "/org/freedesktop/Notifications",
        "org.freedesktop.Notifications",
        member,
    )
    .unwrap()
    .build(&(
        "chat",
        3u32,
        "chat-icon",
        "Hello",
        "How are you?",
        vec!["default", "Open", "reply", "Reply", "orphan"],
        hints,
        7000i32,
    ))
    .unwrap()
}

#[test]
fn a_notify_signal_is_decoded() {
    let before = chrono::Local::now().timestamp();
    let n = parse_notification_signal(&notify_signal("Notify")).unwrap();
    let after = chrono::Local::now().timestamp();

    assert_eq!(n.app_name, "chat");
    assert_eq!(n.replaces_id, 3);
    assert_eq!(n.app_icon, "chat-icon");
    assert_eq!(n.summary, "Hello");
    assert_eq!(n.body, "How are you?");
    assert_eq!(n.expire_timeout, 7000);
    assert_eq!(n.actions.len(), 2);
    assert_eq!(n.actions[1].key, "reply");
    assert_eq!(n.actions[1].label, "Reply");
    assert_eq!(n.hints.urgency, Urgency::Critical);
    assert!(n.hints.transient);
    assert!(!n.hints.resident);
    assert_eq!(n.hints.category.as_deref(), Some("im.received"));
    assert_eq!(n.hints.desktop_entry.as_deref(), Some("chat"));
    assert_eq!(n.hints.x, Some(-12));
    assert_eq!(n.hints.y, None);
    assert!(n.hints.image_data.is_none());
    assert_eq!(n.raw_hints.len(), 6);
    match n.raw_hints.get("image-data") {
        Some(HintValue::Other(_)) => {}
        other => panic!("expected an unread value, got {:?}", other),
    }
    match n.raw_hints.get("urgency") {
        Some(HintValue::Byte(2)) => {}
        other => panic!("expected the byte 2, got {:?}", other),
    }
    assert!(before <= n.timestamp.secs && n.timestamp.secs <= after);
    assert!(n.timestamp.nanos < 1_000_000_000);
}

#[test]
fn another_signal_is_refused() {
    match parse_notification_signal(&notify_signal("NotificationClosed")) {
        Err(NotificationError::UnexpectedSignal(member)) => {
            assert_eq!(member, "NotificationClosed")
        }
        other => panic!("expected UnexpectedSignal, got {:?}", other),
    }
}

#[test]
fn a_body_of_another_shape_is_refused() {
    let message = zbus::Message::signal(
        "/org/freedesktop/Notifications",
        "org.freedesktop.Notifications",
        "Notify",
    )
    .unwrap()
    .build(&(5u32, "only two"))
    .unwrap();
    match parse_notification_signal(&message) {
        Err(error) => {
            assert!(matches!(error, NotificationError::DeserializeFailed(_)));
            assert!(error
                .message()
                .starts_with("Failed to deserialize notification body: "));
            assert!(error.message().len() > "Failed to deserialize notification body: ".len());
        }
        Ok(n) => panic!("expected an error, got {:?}", n),
    }
}

#[test]
fn a_message_without_a_member_is_refused() {
    let call = zbus::Message::method_call("/org/freedesktop/Notifications", "Notify")
        .unwrap()
        .build(&())
        .unwrap();
    let reply = zbus::Message::method_return(&call.header())
        .unwrap()
        .build(&())
        .unwrap();
    match parse_notification_signal(&reply) {
        Err(NotificationError::MissingMember) => {}
        other => panic!("expected MissingMember, got {:?}", other),
    }
}

#[test]
fn a_received_notify_signal_is_handed_on() {
    let (event, notification) = received(Some(Ok(notify_signal("Notify"))));
    assert_eq!(event, ListenerEvent::MessageHandled);
    let n = notification.expect("the signal decodes");
    assert_eq!(n.app_name, "chat");
    assert_eq!(n.summary, "Hello");
    assert_eq!(n.replaces_id, 3);
    assert_eq!(n.hints.urgency, Urgency::Critical);
    assert!(n.timestamp.secs >= 0);
}

#[test]
fn a_received_message_that_does_not_decode_is_dropped() {
    let (event, notification) = received(Some(Ok(notify_signal("NotificationClosed"))));
    assert_eq!(event, ListenerEvent::MessageHandled);
    assert!(notification.is_none());

    let shapeless = zbus::Message::signal(
        "/org/freedesktop/Notifications",
        "org.freedesktop.Notifications",
        "Notify",
    )
    .unwrap()
    .build(&(5u32, "only two"))
    .unwrap();
    let (event, notification) = received(Some(Ok(shapeless)));
    assert_eq!(event, ListenerEvent::MessageHandled);
    assert!(notification.is_none());
}

#[test]
fn a_failed_receipt_is_dropped_and_the_stream_goes_on() {
    let (event, notification) = received(Some(Err(zbus::Error::InvalidReply)));
    assert_eq!(event, ListenerEvent::MessageHandled);
    assert!(notification.is_none());

    // The listener keeps receiving after it.
    let mut state = ListenerState::new();
    for step in [
        ListenerEvent::Started,
        ListenerEvent::Connected,
        ListenerEvent::SubscriptionReady,
    ] {
        state = state.step(step).0;
    }
    let (_, action) = state.step(event);
    assert_eq!(action, ListenerAction::Receive);
}

#[test]
fn the_end_of_the_stream_is_reported() {
    let (event, notification) = received(None);
    assert_eq!(event, ListenerEvent::StreamEnded);
    assert!(notification.is_none());
}
