//! The signals that go back to the senders of notifications.
//!
//! The library says what a signal holds; the host emits it on the bus and
//! does not wait for an answer.

use vstd::prelude::*;

verus! {

/// The object path that the signals are emitted on.
pub const NOTIFICATIONS_PATH: &'static str = "/org/freedesktop/Notifications";

/// The interface that the signals belong to.
pub const NOTIFICATIONS_INTERFACE: &'static str = "org.freedesktop.Notifications";

/// The member of the signal that reports an invoked action.
pub const ACTION_INVOKED: &'static str = "ActionInvoked";

/// The member of the signal that reports a closed notification.
pub const NOTIFICATION_CLOSED: &'static str = "NotificationClosed";

/// Reason a notification was closed, as the `NotificationClosed` signal
/// reports it.
#[derive(Debug, Clone, Copy, PartialEq, Eq, Structural)]
pub enum CloseReason {
    /// Notification expired (timeout).
    Expired,
    /// Dismissed by the user.
    Dismissed,
    /// Closed by a request over the bus.
    Closed,
    /// Undefined or reserved reason.
    Undefined,
}

impl CloseReason {
    /// The protocol's number for the reason: 1 to 4.
    pub open spec fn number(self) -> u32 {
        match self {
            CloseReason::Expired => 1,
            CloseReason::Dismissed => 2,
            CloseReason::Closed => 3,
            CloseReason::Undefined => 4,
        }
    }

    /// The protocol's number for the reason.
    pub fn code(self) -> (r: u32)
        ensures
            r == self.number(),
            1 <= r <= 4,
    {
        match self {
            CloseReason::Expired => 1,
            CloseReason::Dismissed => 2,
            CloseReason::Closed => 3,
            CloseReason::Undefined => 4,
        }
    }

    /// The reason that the protocol numbers `code`, if there is one.
    pub fn from_code(code: u32) -> (r: Option<CloseReason>)
        ensures
            match r {
                Some(reason) => reason.number() == code,
                None => code < 1 || code > 4,
            },
    {
        match code {
            1 => Some(CloseReason::Expired),
            2 => Some(CloseReason::Dismissed),
            3 => Some(CloseReason::Closed),
            4 => Some(CloseReason::Undefined),
            _ => None,
        }
    }
}

/// What a signal to the senders carries.
#[derive(Debug)]
pub enum SignalBody {
    /// `ActionInvoked(id, action_key)`: the user activated an action.
    ActionInvoked { id: u32, action_key: String },
    /// `NotificationClosed(id, reason)`: a notification was closed.
    NotificationClosed { id: u32, reason: u32 },
}

/// A signal to emit: where, under which name, and with what.
#[derive(Debug)]
pub struct OutboundSignal {
    pub path: &'static str,
    pub interface: &'static str,
    pub member: &'static str,
    pub body: SignalBody,
}

/// The signal that tells the sender of the notification `notification_id`
/// that its action `action_key` was invoked.
pub fn action_invoked_signal(notification_id: u32, action_key: &str) -> (signal: OutboundSignal)
    ensures
        signal.path@ == NOTIFICATIONS_PATH@,
        signal.interface@ == NOTIFICATIONS_INTERFACE@,
        signal.member@ == ACTION_INVOKED@,
        signal.body matches SignalBody::ActionInvoked { id, action_key: key } && id
            == notification_id && key@ == action_key@,
{
    OutboundSignal {
        path: NOTIFICATIONS_PATH,
        interface: NOTIFICATIONS_INTERFACE,
        member: ACTION_INVOKED,
        body: SignalBody::ActionInvoked { id: notification_id, action_key: action_key.to_owned() },
    }
}

/// The signal that tells the sender of the notification `notification_id`
/// that it was closed, and why.
pub fn notification_closed_signal(notification_id: u32, reason: CloseReason) -> (signal:
    OutboundSignal)
    ensures
        signal.path@ == NOTIFICATIONS_PATH@,
        signal.interface@ == NOTIFICATIONS_INTERFACE@,
        signal.member@ == NOTIFICATION_CLOSED@,
        signal.body == (SignalBody::NotificationClosed {
            id: notification_id,
            reason: reason.number(),
        }),
{
    OutboundSignal {
        path: NOTIFICATIONS_PATH,
        interface: NOTIFICATIONS_INTERFACE,
        member: NOTIFICATION_CLOSED,
        body: SignalBody::NotificationClosed { id: notification_id, reason: reason.code() },
    }
}

} // verus!
