//! Design tokens that do not depend on the active theme.

use crate::dbus::types::Urgency;
use vstd::prelude::*;

verus! {

/// Standard component sizes, in pixels.
pub struct ComponentSize;

impl ComponentSize {
    /// Icon size for applet panel button.
    pub const APPLET_ICON: u16 = 24;

    /// Icon size for notification app icon.
    pub const NOTIFICATION_ICON: u16 = 32;

    /// Icon size for action buttons.
    pub const ACTION_ICON: u16 = 20;

    /// Icon size for status indicators.
    pub const STATUS_ICON: u16 = 16;

    /// Standard notification card width.
    pub const NOTIFICATION_WIDTH: u16 = 400;

    /// Maximum popup height before scrolling.
    pub const MAX_POPUP_HEIGHT: u16 = 600;

    /// Border width for selected notifications.
    pub const SELECTION_BORDER_WIDTH: u16 = 2;

    /// Border width for urgency indicator (left border).
    pub const URGENCY_BORDER_WIDTH: u16 = 3;
}

/// A color of the active theme, by its role.
#[derive(Debug, Clone, Copy, PartialEq, Eq, Structural)]
pub enum ThemeColor {
    /// Text color on background.
    OnBackground,
    /// Accent color for primary actions and selection.
    Accent,
    /// Destructive color for dangerous actions.
    Destructive,
}

/// Urgency level visual styling.
pub struct UrgencyStyle;

/// The border of a notification of an urgency: the theme color and its
/// opacity in percent.
pub open spec fn border_for(urgency: Urgency) -> (ThemeColor, u8) {
    match urgency {
        Urgency::Low => (ThemeColor::OnBackground, 10),
        Urgency::Normal => (ThemeColor::Accent, 30),
        Urgency::Critical => (ThemeColor::Destructive, 60),
    }
}

impl UrgencyStyle {
    /// Get the border for an urgency level: a subtle neutral border for
    /// low urgency, the accent color for normal, the destructive color
    /// for critical, each with its opacity in percent.
    pub fn border(urgency: Urgency) -> (r: (ThemeColor, u8))
        ensures
            r == border_for(urgency),
    {
        match urgency {
            Urgency::Low => (ThemeColor::OnBackground, 10),
            Urgency::Normal => (ThemeColor::Accent, 30),
            Urgency::Critical => (ThemeColor::Destructive, 60),
        }
    }

    /// Get icon name for urgency level.
    pub fn icon_name(urgency: Urgency) -> (name: &'static str)
        ensures
            urgency == Urgency::Critical ==> name@ == "dialog-warning-symbolic"@,
            urgency != Urgency::Critical ==> name@ == "notification-symbolic"@,
    {
        match urgency {
            Urgency::Low => "notification-symbolic",
            Urgency::Normal => "notification-symbolic",
            Urgency::Critical => "dialog-warning-symbolic",
        }
    }
}

} // verus!
