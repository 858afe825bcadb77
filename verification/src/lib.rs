//! Notification ingestion and lifecycle management for a desktop
//! notification applet: decoding of bus signals, the reconnecting
//! listener's state machine, the notification manager with its filter
//! cascade and bounded sets, and the history store's retention rules.

pub mod string_map;
pub mod text;
pub mod time;
pub mod ui;
pub mod accessibility;
pub mod applet;
pub mod config;
pub mod dbus;
pub mod manager;

pub use dbus::{Notification, NotificationAction, NotificationHints, Urgency};
