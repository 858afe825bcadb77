//! Notifications as they arrive over the session bus.

pub mod listener;
pub mod sender;
pub mod types;

pub use sender::CloseReason;
pub use types::{
    parse_actions, parse_hints, HintValue, ImageData, Notification, NotificationAction,
    NotificationHints, RawHints, Urgency,
};
