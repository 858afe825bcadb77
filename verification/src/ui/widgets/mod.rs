//! What the widgets show, apart from how they draw it.

pub mod filter_settings;
pub mod notification_card;

pub use filter_settings::FilterSettingsMessage;
