// Tests of the notification manager.

use cosmic_applet_notifications::dbus::{Notification, NotificationHints, RawHints, Urgency};
use cosmic_applet_notifications::manager::{
    NotificationAction, NotificationManager, MAX_ACTIVE_NOTIFICATIONS, MAX_HISTORY_SIZE,
};
use cosmic_applet_notifications::string_map::StringMap;
use cosmic_applet_notifications::time::Timestamp;

fn moment(seconds_ago: i64) -> Timestamp {
    let at = chrono::Local::now() - chrono::Duration::seconds(seconds_ago);
    Timestamp::new(at.timestamp(), at.timestamp_subsec_nanos())
}

fn create_test_notification(app_name: &str, summary: &str) -> Notification {
    Notification {
        id: 0,
        app_name: app_name.to_string(),
        replaces_id: 0,
        app_icon: String::new(),
        summary: summary.to_string(),
        body: String::new(),
        actions: Vec::new(),
        hints: NotificationHints {
            urgency: Urgency::Normal,
            ..Default::default()
        },
        raw_hints: RawHints::new(),
        expire_timeout: 0,
        timestamp: moment(0),
    }
}

#[test]
fn test_new_manager() {
    let manager = NotificationManager::new();
    assert_eq!(manager.active_count(), 0);
    assert_eq!(manager.history().len(), 0);
    assert!(!manager.is_do_not_disturb());
}

#[test]
fn test_add_notification() {
    let mut manager = NotificationManager::new();
    let notification = create_test_notification("test", "Test notification");

    let action = manager.add_notification(notification);
    assert_eq!(action, NotificationAction::Displayed);
    assert_eq!(manager.active_count(), 1);
    assert_eq!(manager.history().len(), 1);
}

#[test]
fn test_remove_notification() {
    let mut manager = NotificationManager::new();
    let notification = create_test_notification("test", "Test");

    manager.add_notification(notification);
    let id = manager.active_notifications()[0].id;

    assert!(manager.remove_notification(id));
    assert_eq!(manager.active_count(), 0);
}

#[test]
fn mod_test_notification_replacement() {
    let mut manager = NotificationManager::new();

    let notif1 = create_test_notification("test", "Original");
    manager.add_notification(notif1.clone());

    let id1 = manager.active_notifications()[0].id;

    // Create replacement notification
    let mut notif2 = create_test_notification("test", "Replacement");
    notif2.replaces_id = id1;

    manager.add_notification(notif2);

    // Should only have one notification (replacement)
    assert_eq!(manager.active_count(), 1);
    assert_eq!(manager.active_notifications()[0].summary, "Replacement");
}

#[test]
fn test_max_active_notifications() {
    let mut manager = NotificationManager::new();

    // Add more than MAX_ACTIVE_NOTIFICATIONS
    for i in 0..MAX_ACTIVE_NOTIFICATIONS + 5 {
        let notif = create_test_notification("test", &format!("Notification {}", i));
        manager.add_notification(notif);
    }

    // Should not exceed maximum
    assert_eq!(manager.active_count(), MAX_ACTIVE_NOTIFICATIONS);
}

#[test]
fn test_history_limit() {
    let mut manager = NotificationManager::new();

    // Add more than MAX_HISTORY_SIZE
    for i in 0..MAX_HISTORY_SIZE + 10 {
        let notif = create_test_notification("test", &format!("Notification {}", i));
        manager.add_notification(notif);
    }

    // History should not exceed maximum
    assert_eq!(manager.history().len(), MAX_HISTORY_SIZE);
}

#[test]
fn test_do_not_disturb_normal() {
    let mut manager = NotificationManager::new();
    manager.set_do_not_disturb(true);

    let notification = create_test_notification("test", "Test");
    let action = manager.add_notification(notification);

    assert_eq!(action, NotificationAction::AddedToHistoryOnly);
    assert_eq!(manager.active_count(), 0);
    assert_eq!(manager.history().len(), 1);
}

#[test]
fn test_do_not_disturb_critical() {
    let mut manager = NotificationManager::new();
    manager.set_do_not_disturb(true);

    let mut notification = create_test_notification("test", "Critical");
    notification.hints.urgency = Urgency::Critical;

    let action = manager.add_notification(notification);

    // Critical notifications bypass DND
    assert_eq!(action, NotificationAction::Displayed);
    assert_eq!(manager.active_count(), 1);
}

#[test]
fn test_app_filter() {
    let mut manager = NotificationManager::new();
    manager.set_app_filter("blocked_app".to_string(), false);

    let notification = create_test_notification("blocked_app", "Test");
    let action = manager.add_notification(notification);

    assert_eq!(action, NotificationAction::AddedToHistoryOnly);
    assert_eq!(manager.active_count(), 0);
}

#[test]
fn test_clear_all() {
    let mut manager = NotificationManager::new();

    for i in 0..5 {
        let notif = create_test_notification("test", &format!("Notification {}", i));
        manager.add_notification(notif);
    }

    assert_eq!(manager.active_count(), 5);

    manager.clear_all();
    assert_eq!(manager.active_count(), 0);
    // All should be in history now
    assert_eq!(manager.history().len(), 5);
}

#[test]
fn test_get_notifications_by_app() {
    let mut manager = NotificationManager::new();

    manager.add_notification(create_test_notification("app1", "Test 1"));
    manager.add_notification(create_test_notification("app1", "Test 2"));
    manager.add_notification(create_test_notification("app2", "Test 3"));

    let grouped = manager.get_notifications_by_app();

    assert_eq!(grouped.len(), 2);
    assert_eq!(grouped.get("app1").unwrap().len(), 2);
    assert_eq!(grouped.get("app2").unwrap().len(), 1);
}

#[test]
fn test_get_by_urgency() {
    let mut manager = NotificationManager::new();

    let mut notif_critical = create_test_notification("test", "Critical");
    notif_critical.hints.urgency = Urgency::Critical;

    manager.add_notification(notif_critical);
    manager.add_notification(create_test_notification("test", "Normal"));

    let critical = manager.get_by_urgency(Urgency::Critical);
    assert_eq!(critical.len(), 1);

    let normal = manager.get_by_urgency(Urgency::Normal);
    assert_eq!(normal.len(), 1);
}

#[test]
fn test_transient_not_in_history() {
    let mut manager = NotificationManager::new();

    let mut notification = create_test_notification("test", "Transient");
    notification.hints.transient = true;

    manager.add_notification(notification);

    // Should be active but not in history
    assert_eq!(manager.active_count(), 1);

    let id = manager.active_notifications()[0].id;
    manager.remove_notification(id);

    // Still should not be in history after removal
    assert_eq!(manager.history().len(), 0);
}

#[test]
fn test_expired_notifications() {
    let mut manager = NotificationManager::new();

    // Create notification that expired 10 seconds ago
    let mut old_notification = create_test_notification("test", "Old");
    old_notification.expire_timeout = 5000; // 5 seconds
    old_notification.timestamp = moment(10);

    // Create recent notification
    let recent_notification = create_test_notification("test", "Recent");

    manager.add_notification(old_notification);
    manager.add_notification(recent_notification);

    let expired = manager.get_expired_notifications();

    // Only the old notification should be expired
    assert_eq!(expired.len(), 1);
}

#[test]
fn test_never_expire_timeout() {
    let mut manager = NotificationManager::new();

    let mut notification = create_test_notification("test", "Never Expire");
    notification.expire_timeout = -1;
    notification.timestamp = moment(1000);

    manager.add_notification(notification);

    let expired = manager.get_expired_notifications();

    // Should not expire even though very old
    assert_eq!(expired.len(), 0);
}

#[test]
fn test_resident_not_expired() {
    let mut manager = NotificationManager::new();

    let mut notification = create_test_notification("test", "Resident");
    notification.hints.resident = true;
    notification.expire_timeout = 1000; // 1 second
    notification.timestamp = moment(10);

    manager.add_notification(notification);

    let expired = manager.get_expired_notifications();

    // Resident notifications don't auto-expire
    assert_eq!(expired.len(), 0);
}

#[test]
fn test_no_duplicate_history() {
    let mut manager = NotificationManager::new();

    let notification = create_test_notification("test", "Test");
    manager.add_notification(notification);

    // History should only have one entry
    assert_eq!(manager.history().len(), 1);
    assert_eq!(manager.active_count(), 1);
}

#[test]
fn test_evicted_notifications_in_history() {
    let mut manager = NotificationManager::new();

    // Add more than MAX_ACTIVE_NOTIFICATIONS
    for i in 0..MAX_ACTIVE_NOTIFICATIONS + 2 {
        let notif = create_test_notification("test", &format!("Notification {}", i));
        manager.add_notification(notif);
    }

    // Should have exactly MAX_ACTIVE_NOTIFICATIONS active
    assert_eq!(manager.active_count(), MAX_ACTIVE_NOTIFICATIONS);

    // All notifications should be in history (including evicted ones)
    assert_eq!(manager.history().len(), MAX_ACTIVE_NOTIFICATIONS + 2);
}

#[test]
fn test_min_urgency_level_low() {
    let mut manager = NotificationManager::new();
    manager.set_min_urgency_level(1); // Block low urgency

    let mut notification = create_test_notification("test", "Low Urgency");
    notification.hints.urgency = Urgency::Low;

    let action = manager.add_notification(notification);

    // Low urgency should be filtered out
    assert_eq!(action, NotificationAction::AddedToHistoryOnly);
    assert_eq!(manager.active_count(), 0);
    assert_eq!(manager.history().len(), 1);
}

#[test]
fn test_min_urgency_level_normal() {
    let mut manager = NotificationManager::new();
    manager.set_min_urgency_level(1); // Normal and above

    let mut notification = create_test_notification("test", "Normal Urgency");
    notification.hints.urgency = Urgency::Normal;

    let action = manager.add_notification(notification);

    // Normal urgency should pass
    assert_eq!(action, NotificationAction::Displayed);
    assert_eq!(manager.active_count(), 1);
}

#[test]
fn test_min_urgency_level_critical_only() {
    let mut manager = NotificationManager::new();
    manager.set_min_urgency_level(2); // Critical only

    let mut notif_normal = create_test_notification("test", "Normal");
    notif_normal.hints.urgency = Urgency::Normal;

    let mut notif_critical = create_test_notification("test", "Critical");
    notif_critical.hints.urgency = Urgency::Critical;

    manager.add_notification(notif_normal);
    manager.add_notification(notif_critical);

    // Only critical should be displayed
    assert_eq!(manager.active_count(), 1);
    assert_eq!(manager.active_notifications()[0].summary, "Critical");
}

#[test]
fn test_load_app_filters() {
    let mut manager = NotificationManager::new();

    let mut filters = StringMap::new();
    filters.insert("blocked_app".to_string(), false);
    filters.insert("allowed_app".to_string(), true);

    manager.load_app_filters(filters);

    // Test blocked app
    let notif_blocked = create_test_notification("blocked_app", "Blocked");
    let action = manager.add_notification(notif_blocked);
    assert_eq!(action, NotificationAction::AddedToHistoryOnly);

    // Test allowed app
    let notif_allowed = create_test_notification("allowed_app", "Allowed");
    let action = manager.add_notification(notif_allowed);
    assert_eq!(action, NotificationAction::Displayed);
}

#[test]
fn test_critical_bypasses_dnd_but_not_app_filter() {
    let mut manager = NotificationManager::new();
    manager.set_do_not_disturb(true);
    manager.set_app_filter("blocked_app".to_string(), false);

    // Critical notification from blocked app
    let mut notification = create_test_notification("blocked_app", "Critical");
    notification.hints.urgency = Urgency::Critical;

    let action = manager.add_notification(notification);

    // Should be filtered by app filter even though critical
    assert_eq!(action, NotificationAction::AddedToHistoryOnly);
    assert_eq!(manager.active_count(), 0);
}

#[test]
fn test_urgency_filter_blocks_critical() {
    let mut manager = NotificationManager::new();
    manager.set_min_urgency_level(0); // Show all
    manager.set_app_filter("test".to_string(), false); // Block app

    let mut notification = create_test_notification("test", "Critical");
    notification.hints.urgency = Urgency::Critical;

    let action = manager.add_notification(notification);

    // App filter should block even critical notifications
    assert_eq!(action, NotificationAction::AddedToHistoryOnly);
}

#[test]
fn test_set_min_urgency_level_clamping() {
    let mut manager = NotificationManager::new();

    // Test clamping to maximum
    manager.set_min_urgency_level(5);
    assert_eq!(manager.min_urgency_level(), 2);

    // Test valid value
    manager.set_min_urgency_level(1);
    assert_eq!(manager.min_urgency_level(), 1);
}

// The manager's rules on concrete values.

fn plain(id: u32, app_name: &str, summary: &str, urgency: Urgency) -> Notification {
    let mut n = create_test_notification(app_name, summary);
    n.id = id;
    n.hints.urgency = urgency;
    n.timestamp = Timestamp::new(1_000, 0);
    n
}

fn active_ids(manager: &NotificationManager) -> Vec<u32> {
    manager.active_notifications().iter().map(|n| n.id).collect()
}

fn history_summaries(manager: &NotificationManager) -> Vec<String> {
    manager.history().iter().map(|n| n.summary.clone()).collect()
}

#[test]
fn ids_are_assigned_from_one_and_are_distinct() {
    let mut manager = NotificationManager::new();
    for i in 0..4 {
        manager.add_notification(plain(0, "app", &format!("n{}", i), Urgency::Normal));
    }
    assert_eq!(active_ids(&manager), vec![1, 2, 3, 4]);
    assert!(active_ids(&manager).iter().all(|id| *id != 0));
}

#[test]
fn a_given_id_is_kept() {
    let mut manager = NotificationManager::new();
    manager.add_notification(plain(77, "app", "given", Urgency::Normal));
    manager.add_notification(plain(0, "app", "assigned", Urgency::Normal));
    assert_eq!(active_ids(&manager), vec![77, 1]);
}

#[test]
fn a_filtered_notification_still_uses_up_an_id() {
    let mut manager = NotificationManager::new();
    manager.set_do_not_disturb(true);
    manager.add_notification(plain(0, "app", "filtered", Urgency::Normal));
    manager.set_do_not_disturb(false);
    manager.add_notification(plain(0, "app", "shown", Urgency::Normal));
    assert_eq!(active_ids(&manager), vec![2]);
    assert_eq!(manager.history()[0].id, 1);
}

#[test]
fn replacement_leaves_one_entry_with_the_new_content() {
    let mut manager = NotificationManager::new();
    manager.add_notification(plain(0, "app", "first", Urgency::Normal));
    manager.add_notification(plain(0, "app", "second", Urgency::Normal));
    let mut replacement = plain(0, "app", "first again", Urgency::Normal);
    replacement.replaces_id = 1;
    let action = manager.add_notification(replacement);
    assert_eq!(action, NotificationAction::Displayed);
    assert_eq!(manager.active_count(), 2);
    assert_eq!(active_ids(&manager), vec![2, 3]);
    assert_eq!(manager.active_notifications()[1].summary, "first again");
    assert!(manager.get_notification(1).is_none());
}

#[test]
fn replacement_removes_the_old_entry_even_when_filtered() {
    let mut manager = NotificationManager::new();
    manager.add_notification(plain(0, "app", "first", Urgency::Normal));
    manager.set_do_not_disturb(true);
    let mut replacement = plain(0, "app", "quiet", Urgency::Normal);
    replacement.replaces_id = 1;
    let action = manager.add_notification(replacement);
    assert_eq!(action, NotificationAction::AddedToHistoryOnly);
    assert_eq!(manager.active_count(), 0);
    assert_eq!(history_summaries(&manager), vec!["first", "quiet"]);
}

#[test]
fn replacing_an_unknown_id_adds_the_notification() {
    let mut manager = NotificationManager::new();
    manager.add_notification(plain(0, "app", "first", Urgency::Normal));
    let mut replacement = plain(0, "app", "second", Urgency::Normal);
    replacement.replaces_id = 99;
    manager.add_notification(replacement);
    assert_eq!(active_ids(&manager), vec![1, 2]);
}

#[test]
fn oldest_active_notifications_are_evicted_first() {
    let mut manager = NotificationManager::new();
    for i in 0..MAX_ACTIVE_NOTIFICATIONS + 3 {
        manager.add_notification(plain(0, "app", &format!("n{}", i), Urgency::Normal));
    }
    assert_eq!(manager.active_count(), MAX_ACTIVE_NOTIFICATIONS);
    assert_eq!(active_ids(&manager), (4..=13).collect::<Vec<u32>>());
    assert_eq!(manager.history().len(), MAX_ACTIVE_NOTIFICATIONS + 3);
}

#[test]
fn history_trims_oldest_first_at_the_configured_cap() {
    let mut manager = NotificationManager::new();
    manager.set_max_history_items(3);
    assert_eq!(manager.max_history_items(), 3);
    for i in 0..5 {
        manager.add_notification(plain(0, "app", &format!("n{}", i), Urgency::Normal));
    }
    assert_eq!(history_summaries(&manager), vec!["n2", "n3", "n4"]);
    assert_eq!(manager.active_count(), 5);
}

#[test]
fn lowering_the_history_cap_trims_at_once() {
    let mut manager = NotificationManager::new();
    for i in 0..5 {
        manager.add_notification(plain(0, "app", &format!("n{}", i), Urgency::Normal));
    }
    manager.set_max_history_items(2);
    assert_eq!(history_summaries(&manager), vec!["n3", "n4"]);
    manager.set_max_history_items(0);
    assert_eq!(manager.history().len(), 0);
    manager.add_notification(plain(0, "app", "late", Urgency::Normal));
    assert_eq!(manager.history().len(), 0);
}

#[test]
fn transient_notifications_never_reach_the_history() {
    let mut manager = NotificationManager::new();

    let mut shown = plain(0, "app", "shown", Urgency::Normal);
    shown.hints.transient = true;
    assert_eq!(manager.add_notification(shown), NotificationAction::Displayed);

    manager.set_do_not_disturb(true);
    let mut filtered = plain(0, "app", "filtered", Urgency::Normal);
    filtered.hints.transient = true;
    assert_eq!(manager.add_notification(filtered), NotificationAction::AddedToHistoryOnly);
    manager.set_do_not_disturb(false);

    let mut replaced = plain(0, "app", "replacement", Urgency::Normal);
    replaced.hints.transient = true;
    replaced.replaces_id = 1;
    manager.add_notification(replaced);

    manager.clear_all();
    assert_eq!(manager.active_count(), 0);
    assert_eq!(manager.history().len(), 0);
}

#[test]
fn removal_and_clearing_leave_the_history_as_it_is() {
    let mut manager = NotificationManager::new();
    manager.add_notification(plain(0, "app", "a", Urgency::Normal));
    manager.add_notification(plain(0, "app", "b", Urgency::Normal));
    assert!(manager.remove_notification(1));
    assert!(!manager.remove_notification(1));
    assert_eq!(history_summaries(&manager), vec!["a", "b"]);
    manager.clear_all();
    assert_eq!(history_summaries(&manager), vec!["a", "b"]);
    manager.clear_history();
    assert_eq!(manager.history().len(), 0);
}

#[test]
fn filter_precedence_level_by_level() {
    // The minimum urgency comes before the critical bypass.
    let mut manager = NotificationManager::new();
    manager.set_min_urgency_level(2);
    manager.set_app_filter("app".to_string(), true);
    assert!(!manager.should_display(&plain(0, "app", "n", Urgency::Normal)));
    assert!(manager.should_display(&plain(0, "app", "n", Urgency::Critical)));

    // A critical notification passes Do Not Disturb, not the app filter.
    let mut manager = NotificationManager::new();
    manager.set_do_not_disturb(true);
    assert!(manager.should_display(&plain(0, "app", "n", Urgency::Critical)));
    manager.set_app_filter("app".to_string(), false);
    assert!(!manager.should_display(&plain(0, "app", "n", Urgency::Critical)));

    // Do Not Disturb comes before an allowing app filter.
    let mut manager = NotificationManager::new();
    manager.set_do_not_disturb(true);
    manager.set_app_filter("app".to_string(), true);
    assert!(!manager.should_display(&plain(0, "app", "n", Urgency::Normal)));
    assert!(!manager.should_display(&plain(0, "app", "n", Urgency::Low)));

    // The app filter decides where nothing above it does.
    let mut manager = NotificationManager::new();
    manager.set_app_filter("denied".to_string(), false);
    manager.set_app_filter("allowed".to_string(), true);
    assert!(!manager.should_display(&plain(0, "denied", "n", Urgency::Low)));
    assert!(manager.should_display(&plain(0, "allowed", "n", Urgency::Low)));

    // An application without a filter is shown.
    assert!(manager.should_display(&plain(0, "other", "n", Urgency::Low)));
    manager.remove_app_filter("denied");
    assert!(manager.should_display(&plain(0, "denied", "n", Urgency::Low)));
}

#[test]
fn dnd_scenario_normal_is_recorded_and_critical_is_shown() {
    let mut manager = NotificationManager::new();
    manager.set_do_not_disturb(true);
    assert_eq!(
        manager.add_notification(plain(0, "app", "normal", Urgency::Normal)),
        NotificationAction::AddedToHistoryOnly
    );
    assert_eq!(
        manager.add_notification(plain(0, "app", "critical", Urgency::Critical)),
        NotificationAction::Displayed
    );
}

fn timed(expire_timeout: i32, resident: bool, received: Timestamp) -> Notification {
    let mut n = plain(1, "app", "timed", Urgency::Normal);
    n.expire_timeout = expire_timeout;
    n.hints.resident = resident;
    n.timestamp = received;
    n
}

#[test]
fn expiration_boundaries() {
    let received = Timestamp::new(1_000, 500);
    let after = |seconds: i64, nanos: u32| Timestamp::new(1_000 + seconds, nanos);

    // 5000 ms and an age of 10 s: expired.
    assert!(NotificationManager::is_expired(&timed(5000, false, received), &after(10, 500)));
    // -1 and an age of 1000 s: never.
    assert!(!NotificationManager::is_expired(&timed(-1, false, received), &after(1000, 500)));
    // Resident with 1000 ms and an age of 10 s: never.
    assert!(!NotificationManager::is_expired(&timed(1000, true, received), &after(10, 500)));
    // Another negative timeout: never.
    assert!(!NotificationManager::is_expired(&timed(-7, false, received), &after(1000, 500)));

    // Exactly the timeout is not yet expired; one nanosecond more is.
    assert!(!NotificationManager::is_expired(&timed(5000, false, received), &after(5, 500)));
    assert!(NotificationManager::is_expired(&timed(5000, false, received), &after(5, 501)));

    // 0 asks for the default of 5 s.
    assert!(!NotificationManager::is_expired(&timed(0, false, received), &after(5, 500)));
    assert!(NotificationManager::is_expired(&timed(0, false, received), &after(5, 501)));

    // Milliseconds are cut to whole seconds: 1999 ms is 1 s, 999 ms is 0 s.
    assert!(!NotificationManager::is_expired(&timed(1999, false, received), &after(1, 500)));
    assert!(NotificationManager::is_expired(&timed(1999, false, received), &after(1, 501)));
    assert!(!NotificationManager::is_expired(&timed(999, false, received), &after(0, 500)));
    assert!(NotificationManager::is_expired(&timed(999, false, received), &after(0, 501)));

    // A notification from the future has not expired.
    assert!(!NotificationManager::is_expired(&timed(1000, false, received), &Timestamp::new(0, 0)));
}

#[test]
fn expired_ids_come_in_order_and_leave_the_manager_unchanged() {
    let mut manager = NotificationManager::new();
    let received = Timestamp::new(1_000, 0);
    manager.add_notification(timed(2000, false, received));
    let mut second = timed(60_000, false, received);
    second.id = 2;
    manager.add_notification(second);
    let mut third = timed(0, false, received);
    third.id = 3;
    manager.add_notification(third);

    let ids = manager.expired_notifications_at(&Timestamp::new(1_010, 0));
    assert_eq!(ids, vec![1, 3]);
    assert_eq!(manager.active_count(), 3);
    assert_eq!(manager.expired_notifications_at(&Timestamp::new(1_001, 0)), Vec::<u32>::new());
}

#[test]
fn cleanup_history_at_trims_by_age_and_then_by_size() {
    let mut manager = NotificationManager::new();
    let day: i64 = 86_400;
    let now = Timestamp::new(100 * day, 0);
    for age in [40, 20, 10, 5, 1] {
        let mut n = plain(0, "app", &format!("{} days", age), Urgency::Normal);
        n.timestamp = Timestamp::new((100 - age) * day, 0);
        manager.add_notification(n);
    }
    let removed = manager.cleanup_history_at(2, Some(30), &now);
    assert_eq!(removed, 3);
    assert_eq!(history_summaries(&manager), vec!["5 days", "1 days"]);
    assert_eq!(manager.cleanup_history_at(2, None, &now), 0);
}

#[test]
fn with_history_at_tidies_the_loaded_history() {
    let day: i64 = 86_400;
    let now = Timestamp::new(100 * day, 0);
    let mut loaded = std::collections::VecDeque::new();
    for age in [40, 20, 10, 5] {
        let mut n = plain(9, "app", &format!("{} days", age), Urgency::Normal);
        n.timestamp = Timestamp::new((100 - age) * day, 0);
        loaded.push_back(n);
    }
    let manager = NotificationManager::with_history_at(loaded, 2, Some(30), &now);
    assert_eq!(history_summaries(&manager), vec!["10 days", "5 days"]);
    assert_eq!(manager.active_count(), 0);
    assert_eq!(manager.max_history_items(), 2);
    assert_eq!(manager.history_retention_days(), Some(30));
    assert!(!manager.is_do_not_disturb());
    assert_eq!(manager.min_urgency_level(), 0);
    assert!(manager.app_filters().is_empty());
}

#[test]
fn save_history_copies_the_history_in_order() {
    let mut manager = NotificationManager::new();
    manager.add_notification(plain(0, "app", "a", Urgency::Normal));
    manager.add_notification(plain(0, "app", "b", Urgency::Low));
    let items = manager.save_history();
    assert_eq!(items.len(), 2);
    assert_eq!(items[0].summary, "a");
    assert_eq!(items[1].summary, "b");
    assert_eq!(items[1].hints.urgency, Urgency::Low);
}

#[test]
fn get_notification_finds_by_id_and_by_place() {
    let mut manager = NotificationManager::new();
    manager.add_notification(plain(5, "app", "five", Urgency::Normal));
    manager.add_notification(plain(6, "app", "six", Urgency::Normal));
    assert_eq!(manager.get_notification(6).unwrap().summary, "six");
    assert!(manager.get_notification(7).is_none());
    assert_eq!(manager.get_notification_at(0).unwrap().summary, "five");
    assert!(manager.get_notification_at(2).is_none());
}

#[test]
fn a_given_id_does_not_move_the_counter() {
    let mut manager = NotificationManager::new();
    manager.add_notification(plain(u32::MAX, "app", "given", Urgency::Normal));
    manager.add_notification(plain(0, "app", "assigned", Urgency::Normal));
    assert_eq!(active_ids(&manager), vec![u32::MAX, 1]);
}

#[test]
fn an_assigned_id_skips_an_id_that_is_active() {
    let mut manager = NotificationManager::new();
    manager.add_notification(plain(1, "app", "given", Urgency::Normal));
    manager.add_notification(plain(0, "app", "assigned", Urgency::Normal));
    assert_eq!(active_ids(&manager), vec![1, 2]);
    manager.add_notification(plain(0, "app", "next", Urgency::Normal));
    assert_eq!(active_ids(&manager), vec![1, 2, 3]);
}

#[test]
fn an_assigned_id_skips_a_run_of_active_ids() {
    let mut manager = NotificationManager::new();
    for id in [3, 1, 2] {
        manager.add_notification(plain(id, "app", "given", Urgency::Normal));
    }
    manager.add_notification(plain(0, "app", "assigned", Urgency::Normal));
    assert_eq!(active_ids(&manager), vec![3, 1, 2, 4]);
    manager.add_notification(plain(0, "app", "next", Urgency::Normal));
    assert_eq!(active_ids(&manager), vec![3, 1, 2, 4, 5]);
}

#[test]
fn the_counter_goes_on_behind_the_id_it_gave() {
    let mut manager = NotificationManager::new();
    manager.add_notification(plain(2, "app", "given", Urgency::Normal));
    manager.add_notification(plain(5, "app", "given", Urgency::Normal));
    manager.add_notification(plain(0, "app", "first", Urgency::Normal));
    manager.add_notification(plain(0, "app", "second", Urgency::Normal));
    manager.add_notification(plain(0, "app", "third", Urgency::Normal));
    manager.add_notification(plain(0, "app", "fourth", Urgency::Normal));
    assert_eq!(active_ids(&manager), vec![2, 5, 1, 3, 4, 6]);
}

#[test]
fn an_id_is_skipped_only_while_it_is_active() {
    let mut manager = NotificationManager::new();
    manager.add_notification(plain(1, "app", "given", Urgency::Normal));
    assert!(manager.remove_notification(1));
    manager.add_notification(plain(0, "app", "assigned", Urgency::Normal));
    assert_eq!(active_ids(&manager), vec![1]);

    // An id that is held in the history alone does not count.
    let mut manager = NotificationManager::new();
    manager.set_do_not_disturb(true);
    manager.add_notification(plain(1, "app", "filtered", Urgency::Normal));
    manager.set_do_not_disturb(false);
    manager.add_notification(plain(0, "app", "assigned", Urgency::Normal));
    assert_eq!(active_ids(&manager), vec![1]);
}

#[test]
fn a_filtered_notification_takes_an_unused_id_too() {
    let mut manager = NotificationManager::new();
    manager.add_notification(plain(1, "app", "given", Urgency::Normal));
    manager.set_do_not_disturb(true);
    manager.add_notification(plain(0, "app", "filtered", Urgency::Normal));
    assert_eq!(active_ids(&manager), vec![1]);
    assert_eq!(manager.history().back().unwrap().id, 2);
    manager.set_do_not_disturb(false);
    manager.add_notification(plain(0, "app", "shown", Urgency::Normal));
    assert_eq!(active_ids(&manager), vec![1, 3]);
}

#[test]
fn assigned_ids_are_never_zero_and_never_shared() {
    let mut manager = NotificationManager::new();
    for id in [4, 0, 7, 0, 0, 9, 0, 0, 0, 0, 0, 0, 0] {
        manager.add_notification(plain(id, "app", "n", Urgency::Normal));
        let ids = active_ids(&manager);
        assert!(ids.iter().all(|id| *id != 0));
        let mut sorted = ids.clone();
        sorted.sort();
        sorted.dedup();
        assert_eq!(sorted.len(), ids.len());
    }
    assert_eq!(active_ids(&manager), vec![2, 3, 9, 5, 6, 8, 10, 11, 12, 13]);
}

#[test]
fn retention_setter_is_kept() {
    let mut manager = NotificationManager::new();
    assert_eq!(manager.history_retention_days(), None);
    manager.set_history_retention_days(Some(14));
    assert_eq!(manager.history_retention_days(), Some(14));
    assert_eq!(NotificationManager::default().history_retention_days(), None);
}

#[test]
fn a_cloned_manager_is_in_the_same_state() {
    let mut manager = NotificationManager::new();
    manager.set_do_not_disturb(true);
    manager.set_min_urgency_level(1);
    manager.set_app_filter("app".to_string(), true);
    manager.set_max_history_items(7);
    manager.add_notification(plain(0, "app", "shown", Urgency::Critical));
    manager.add_notification(plain(0, "app", "recorded", Urgency::Normal));

    let mut copy = manager.clone();
    assert_eq!(active_ids(&copy), active_ids(&manager));
    assert_eq!(history_summaries(&copy), history_summaries(&manager));
    assert!(copy.is_do_not_disturb());
    assert_eq!(copy.min_urgency_level(), 1);
    assert_eq!(copy.max_history_items(), 7);
    assert_eq!(copy.app_filters().get("app"), Some(&true));

    // The copy goes its own way, with the next id of the first.
    copy.add_notification(plain(0, "app", "third", Urgency::Critical));
    assert_eq!(active_ids(&copy), vec![1, 3]);
    assert_eq!(active_ids(&manager), vec![1]);
}

#[test]
fn recording_appends_and_trims_to_the_configured_cap() {
    let mut manager = NotificationManager::new();
    manager.set_max_history_items(3);
    for summary in ["a", "b", "c"] {
        manager.add_to_history(plain(4, "app", summary, Urgency::Normal));
    }
    assert_eq!(history_summaries(&manager), vec!["a", "b", "c"]);
    assert_eq!(manager.active_count(), 0);

    // At the cap the oldest leaves and the new one is last.
    manager.add_to_history(plain(4, "app", "d", Urgency::Low));
    assert_eq!(history_summaries(&manager), vec!["b", "c", "d"]);

    // A transient notification is not recorded.
    let mut transient = plain(4, "app", "t", Urgency::Normal);
    transient.hints.transient = true;
    manager.add_to_history(transient);
    assert_eq!(history_summaries(&manager), vec!["b", "c", "d"]);

    // Below the cap nothing leaves.
    manager.set_max_history_items(5);
    manager.add_to_history(plain(4, "app", "e", Urgency::Normal));
    assert_eq!(history_summaries(&manager), vec!["b", "c", "d", "e"]);
}

#[test]
fn a_seeded_manager_trims_to_its_own_cap() {
    let mut loaded = std::collections::VecDeque::new();
    for i in 0..60 {
        loaded.push_back(plain(1, "app", &format!("old {}", i), Urgency::Normal));
    }
    let mut manager = NotificationManager::with_history(loaded, 50, None);
    assert_eq!(manager.history().len(), 50);
    assert_eq!(manager.history()[0].summary, "old 10");
    manager.add_to_history(plain(1, "app", "new", Urgency::Normal));
    assert_eq!(manager.history().len(), 50);
    assert_eq!(manager.history()[0].summary, "old 11");
    assert_eq!(manager.history()[49].summary, "new");
    manager.add_notification(plain(0, "app", "newer", Urgency::Normal));
    assert_eq!(manager.history().len(), 50);
    assert_eq!(manager.history()[49].summary, "newer");
}
