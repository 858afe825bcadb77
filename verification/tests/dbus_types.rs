// Tests of the notification data model.

use cosmic_applet_notifications::dbus::{
    parse_actions, parse_hints, HintValue, Notification, NotificationAction, NotificationHints,
    RawHints, Urgency,
};
use cosmic_applet_notifications::time::Timestamp;

fn types_now() -> Timestamp {
    let now = chrono::Local::now();
    Timestamp::new(now.timestamp(), now.timestamp_subsec_nanos())
}

#[test]
fn test_urgency_from_u8() {
    assert_eq!(Urgency::from_u8(0), Some(Urgency::Low));
    assert_eq!(Urgency::from_u8(1), Some(Urgency::Normal));
    assert_eq!(Urgency::from_u8(2), Some(Urgency::Critical));
    assert_eq!(Urgency::from_u8(3), None);
    assert_eq!(Urgency::from_u8(255), None);
}

#[test]
fn test_urgency_to_u8() {
    assert_eq!(Urgency::Low.to_u8(), 0);
    assert_eq!(Urgency::Normal.to_u8(), 1);
    assert_eq!(Urgency::Critical.to_u8(), 2);
}

#[test]
fn test_urgency_default() {
    assert_eq!(Urgency::default(), Urgency::Normal);
}

#[test]
fn types_test_urgency_ordering() {
    assert!(Urgency::Low < Urgency::Normal);
    assert!(Urgency::Normal < Urgency::Critical);
    assert!(Urgency::Critical > Urgency::Low);
}

#[test]
fn test_notification_action_new() {
    let action = NotificationAction::new("default", "Open");
    assert_eq!(action.key, "default");
    assert_eq!(action.label, "Open");
}

#[test]
fn types_test_parse_actions_valid() {
    let actions = vec![
        "default".to_string(),
        "Open".to_string(),
        "dismiss".to_string(),
        "Dismiss".to_string(),
    ];

    let parsed = parse_actions(&actions);
    assert_eq!(parsed.len(), 2);
    assert_eq!(parsed[0].key, "default");
    assert_eq!(parsed[0].label, "Open");
    assert_eq!(parsed[1].key, "dismiss");
    assert_eq!(parsed[1].label, "Dismiss");
}

#[test]
fn types_test_parse_actions_odd_length() {
    let actions = vec![
        "default".to_string(),
        "Open".to_string(),
        "incomplete".to_string(),
    ];

    let parsed = parse_actions(&actions);
    assert_eq!(parsed.len(), 1); // Last incomplete pair is skipped
}

#[test]
fn types_test_parse_actions_empty() {
    let actions: Vec<String> = vec![];
    let parsed = parse_actions(&actions);
    assert!(parsed.is_empty());
}

#[test]
fn test_parse_hints_empty() {
    let hints = RawHints::new();
    let parsed = parse_hints(&hints);

    assert_eq!(parsed.urgency, Urgency::Normal); // Default
    assert_eq!(parsed.category, None);
    assert!(!parsed.transient);
    assert!(!parsed.resident);
}

#[test]
fn test_parse_hints_with_urgency() {
    let mut hints = RawHints::new();
    hints.insert("urgency".to_string(), HintValue::Byte(2));

    let parsed = parse_hints(&hints);
    assert_eq!(parsed.urgency, Urgency::Critical);
}

#[test]
fn test_parse_hints_with_strings() {
    let hints = RawHints::new();
    let parsed = parse_hints(&hints);
    // Just verify parsing doesn't crash with empty hints
    assert_eq!(parsed.category, None);
}

#[test]
fn test_notification_has_actions() {
    let mut notif = Notification {
        id: 1,
        app_name: "test".to_string(),
        replaces_id: 0,
        app_icon: "".to_string(),
        summary: "Test".to_string(),
        body: "Body".to_string(),
        actions: vec![],
        hints: NotificationHints::default(),
        raw_hints: RawHints::new(),
        expire_timeout: 0,
        timestamp: types_now(),
    };

    assert!(!notif.has_actions());

    notif
        .actions
        .push(NotificationAction::new("default", "Open"));
    assert!(notif.has_actions());
}

#[test]
fn parse_hints_reads_every_standard_hint() {
    let mut hints = RawHints::new();
    hints.insert("urgency".to_string(), HintValue::Byte(0));
    hints.insert("category".to_string(), HintValue::Text("email.arrived".to_string()));
    hints.insert("desktop-entry".to_string(), HintValue::Text("firefox".to_string()));
    hints.insert("transient".to_string(), HintValue::Bool(true));
    hints.insert("resident".to_string(), HintValue::Bool(true));
    hints.insert("x".to_string(), HintValue::Int32(-4));
    hints.insert("y".to_string(), HintValue::Int32(17));
    hints.insert("sound-file".to_string(), HintValue::Text("/tmp/a.ogg".to_string()));
    hints.insert("sound-name".to_string(), HintValue::Text("bell".to_string()));
    hints.insert("suppress-sound".to_string(), HintValue::Bool(true));
    hints.insert("action-icons".to_string(), HintValue::Bool(true));
    hints.insert("image_path".to_string(), HintValue::Text("/tmp/b.png".to_string()));

    let parsed = parse_hints(&hints);
    assert_eq!(parsed.urgency, Urgency::Low);
    assert_eq!(parsed.category.as_deref(), Some("email.arrived"));
    assert_eq!(parsed.desktop_entry.as_deref(), Some("firefox"));
    assert!(parsed.transient);
    assert!(parsed.resident);
    assert_eq!(parsed.x, Some(-4));
    assert_eq!(parsed.y, Some(17));
    assert_eq!(parsed.sound_file.as_deref(), Some("/tmp/a.ogg"));
    assert_eq!(parsed.sound_name.as_deref(), Some("bell"));
    assert!(parsed.suppress_sound);
    assert!(parsed.action_icons);
    assert!(parsed.image_data.is_none());
    assert_eq!(parsed.image_path.as_deref(), Some("/tmp/b.png"));
}

#[test]
fn parse_hints_prefers_the_hyphenated_image_path() {
    let mut hints = RawHints::new();
    hints.insert("image_path".to_string(), HintValue::Text("old".to_string()));
    hints.insert("image-path".to_string(), HintValue::Text("new".to_string()));
    assert_eq!(parse_hints(&hints).image_path.as_deref(), Some("new"));
}

#[test]
fn parse_hints_falls_back_on_values_of_the_wrong_kind() {
    let mut hints = RawHints::new();
    hints.insert("urgency".to_string(), HintValue::Int32(2));
    hints.insert("category".to_string(), HintValue::Bool(true));
    hints.insert("transient".to_string(), HintValue::Byte(1));
    hints.insert("x".to_string(), HintValue::Text("3".to_string()));

    let parsed = parse_hints(&hints);
    assert_eq!(parsed.urgency, Urgency::Normal);
    assert_eq!(parsed.category, None);
    assert!(!parsed.transient);
    assert_eq!(parsed.x, None);
}

#[test]
fn parse_hints_urgency_out_of_range_is_normal() {
    let mut hints = RawHints::new();
    hints.insert("urgency".to_string(), HintValue::Byte(3));
    assert_eq!(parse_hints(&hints).urgency, Urgency::Normal);
    hints.insert("urgency".to_string(), HintValue::Byte(255));
    assert_eq!(parse_hints(&hints).urgency, Urgency::Normal);
}

#[test]
fn notification_clone_keeps_content_and_drops_raw_hints() {
    let mut raw = RawHints::new();
    raw.insert("urgency".to_string(), HintValue::Byte(2));
    let notif = Notification {
        id: 7,
        app_name: "mail".to_string(),
        replaces_id: 3,
        app_icon: "icon".to_string(),
        summary: "Summary".to_string(),
        body: "Body".to_string(),
        actions: vec![NotificationAction::new("default", "Open")],
        hints: parse_hints(&raw),
        raw_hints: raw,
        expire_timeout: 1500,
        timestamp: Timestamp::new(12, 34),
    };
    let copy = notif.clone();
    assert_eq!(copy.id, 7);
    assert_eq!(copy.app_name, "mail");
    assert_eq!(copy.replaces_id, 3);
    assert_eq!(copy.app_icon, "icon");
    assert_eq!(copy.summary, "Summary");
    assert_eq!(copy.body, "Body");
    assert_eq!(copy.actions, notif.actions);
    assert_eq!(copy.hints.urgency, Urgency::Critical);
    assert_eq!(copy.expire_timeout, 1500);
    assert_eq!(copy.timestamp, Timestamp::new(12, 34));
    assert_eq!(notif.raw_hints.len(), 1);
    assert!(copy.raw_hints.is_empty());
}

#[test]
fn notification_getters_read_the_hints() {
    let mut hints = NotificationHints::default();
    hints.category = Some("im.received".to_string());
    hints.desktop_entry = Some("chat".to_string());
    hints.transient = true;
    let notif = Notification {
        id: 1,
        app_name: "chat".to_string(),
        replaces_id: 0,
        app_icon: String::new(),
        summary: String::new(),
        body: String::new(),
        actions: vec![],
        hints,
        raw_hints: RawHints::new(),
        expire_timeout: 0,
        timestamp: Timestamp::new(0, 0),
    };
    assert_eq!(notif.category(), Some("im.received"));
    assert_eq!(notif.desktop_entry(), Some("chat"));
    assert!(notif.is_transient());
    assert!(!notif.is_resident());
    assert_eq!(notif.urgency(), Urgency::Normal);
}
