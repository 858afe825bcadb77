//! The messages of the filter settings.

use vstd::prelude::*;

verus! {

/// Message for filter settings updates.
#[derive(Debug, Clone, PartialEq, Eq)]
pub enum FilterSettingsMessage {
    /// Toggle Do Not Disturb mode.
    ToggleDND,
    /// Change minimum urgency level.
    SetUrgencyLevel(u8),
    /// Toggle app filter (app_name, enabled).
    ToggleAppFilter(String, bool),
}

} // verus!
