// Tests of the signals that go back to senders.

use cosmic_applet_notifications::dbus::sender::{
    action_invoked_signal, notification_closed_signal, CloseReason, SignalBody,
};

#[test]
fn test_close_reason_values() {
    assert_eq!(CloseReason::Expired.code(), 1);
    assert_eq!(CloseReason::Dismissed.code(), 2);
    assert_eq!(CloseReason::Closed.code(), 3);
    assert_eq!(CloseReason::Undefined.code(), 4);
}

#[test]
fn close_reason_from_code_round_trips() {
    for reason in [
        CloseReason::Expired,
        CloseReason::Dismissed,
        CloseReason::Closed,
        CloseReason::Undefined,
    ] {
        assert_eq!(CloseReason::from_code(reason.code()), Some(reason));
    }
    assert_eq!(CloseReason::from_code(0), None);
    assert_eq!(CloseReason::from_code(5), None);
}

#[test]
fn action_invoked_signal_holds_id_and_key() {
    let signal = action_invoked_signal(42, "default");
    assert_eq!(signal.path, "/org/freedesktop/Notifications");
    assert_eq!(signal.interface, "org.freedesktop.Notifications");
    assert_eq!(signal.member, "ActionInvoked");
    match signal.body {
        SignalBody::ActionInvoked { id, action_key } => {
            assert_eq!(id, 42);
            assert_eq!(action_key, "default");
        }
        _ => panic!("expected an ActionInvoked body"),
    }
}

#[test]
fn notification_closed_signal_holds_id_and_reason() {
    let signal = notification_closed_signal(7, CloseReason::Dismissed);
    assert_eq!(signal.path, "/org/freedesktop/Notifications");
    assert_eq!(signal.interface, "org.freedesktop.Notifications");
    assert_eq!(signal.member, "NotificationClosed");
    match signal.body {
        SignalBody::NotificationClosed { id, reason } => {
            assert_eq!(id, 7);
            assert_eq!(reason, 2);
        }
        _ => panic!("expected a NotificationClosed body"),
    }
}
