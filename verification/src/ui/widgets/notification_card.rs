//! What a notification card shows of a notification: the age in words,
//! the icon, and which action is selected.

use crate::dbus::types::{Notification, Urgency};
use crate::time::{Timestamp, NANOS_PER_SECOND};
use crate::ui::theme::UrgencyStyle;
use vstd::prelude::*;
use vstd::string::StringExecFns;

verus! {

/// The numeral of a digit.
pub open spec fn digit(d: int) -> Seq<char> {
    if d == 0 {
        "0"@
    } else if d == 1 {
        "1"@
    } else if d == 2 {
        "2"@
    } else if d == 3 {
        "3"@
    } else if d == 4 {
        "4"@
    } else if d == 5 {
        "5"@
    } else if d == 6 {
        "6"@
    } else if d == 7 {
        "7"@
    } else if d == 8 {
        "8"@
    } else {
        "9"@
    }
}

/// The decimal numeral of a number, without leading zeros.
pub open spec fn decimal(n: nat) -> Seq<char>
    decreases n,
{
    if n < 10 {
        digit(n as int)
    } else {
        decimal(n / 10) + digit((n % 10) as int)
    }
}

/// An age of so many nanoseconds in words: "just now" under a minute,
/// then whole minutes under an hour, whole hours under a day, and whole
/// days.
pub open spec fn age_text(nanos: int) -> Seq<char> {
    let seconds = nanos / 1_000_000_000;
    if seconds < 60 {
        "just now"@
    } else if seconds / 60 < 60 {
        decimal((seconds / 60) as nat) + "m ago"@
    } else if seconds / 3600 < 24 {
        decimal((seconds / 3600) as nat) + "h ago"@
    } else {
        decimal((seconds / 86_400) as nat) + "d ago"@
    }
}

/// The numeral of a digit, as a string.
fn digit_text(d: u128) -> (r: &'static str)
    requires
        d < 10,
    ensures
        r@ == digit(d as int),
{
    match d {
        0 => "0",
        1 => "1",
        2 => "2",
        3 => "3",
        4 => "4",
        5 => "5",
        6 => "6",
        7 => "7",
        8 => "8",
        _ => "9",
    }
}

/// Writes the decimal numeral of `n` at the end of `text`.
pub fn append_decimal(text: &mut String, n: u128)
    ensures
        final(text)@ == old(text)@ + decimal(n as nat),
    decreases n,
{
    if n >= 10 {
        append_decimal(text, n / 10);
    }
    text.append(digit_text(n % 10));
    proof {
        assert(text@ =~= old(text)@ + decimal(n as nat));
    }
}

/// Format the age of a notification at `now` for display: relative time
/// such as "2m ago", "1h ago" or "3d ago".
pub fn format_timestamp_at(timestamp: &Timestamp, now: &Timestamp) -> (text: String)
    ensures
        text@ == age_text(now.total_nanos() - timestamp.total_nanos()),
{
    let nanos = now.nanos_since(timestamp);
    if nanos < 60 * NANOS_PER_SECOND {
        return "just now".to_owned();
    }
    let seconds: u128 = nanos as u128 / 1_000_000_000;
    assert(seconds == (now.total_nanos() - timestamp.total_nanos()) / 1_000_000_000);
    let mut text = String::new();
    if seconds / 60 < 60 {
        append_decimal(&mut text, seconds / 60);
        text.append("m ago");
    } else if seconds / 3600 < 24 {
        append_decimal(&mut text, seconds / 3600);
        text.append("h ago");
    } else {
        append_decimal(&mut text, seconds / 86_400);
        text.append("d ago");
    }
    proof {
        assert(text@ =~= age_text(now.total_nanos() - timestamp.total_nanos()));
    }
    text
}

/// Format the age of a notification for display, as of the system clock's
/// time.
pub fn format_timestamp(timestamp: &Timestamp) -> (text: String)
    ensures
        exists|now: Timestamp|
            now.clock_reading() && text@ == age_text(
                #[trigger] now.total_nanos() - timestamp.total_nanos(),
            ),
{
    let now = Timestamp::now();
    format_timestamp_at(timestamp, &now)
}

/// Resolve the name of the icon of a notification: the application's icon
/// where it names one, else the icon of the notification's urgency.
pub fn resolve_notification_icon(notification: &Notification) -> (name: &str)
    ensures
        notification@.app_icon.len() > 0 ==> name@ == notification@.app_icon,
        notification@.app_icon.len() == 0 && notification@.hints.urgency == Urgency::Critical
            ==> name@ == "dialog-warning-symbolic"@,
        notification@.app_icon.len() == 0 && notification@.hints.urgency != Urgency::Critical
            ==> name@ == "notification-symbolic"@,
{
    if !notification.app_icon.as_str().is_empty() {
        notification.app_icon.as_str()
    } else {
        UrgencyStyle::icon_name(notification.urgency())
    }
}

/// The action of a notification card that is shown as selected: the
/// selected action of the selected notification, where the notification
/// has an action at that place.
pub fn selected_action(
    is_selected: bool,
    selected_action_index: Option<usize>,
    action_count: usize,
) -> (r: Option<usize>)
    ensures
        r == (if is_selected && selected_action_index is Some && selected_action_index->0
            < action_count {
            selected_action_index
        } else {
            None
        }),
{
    if !is_selected {
        return None;
    }
    match selected_action_index {
        Some(index) => if index < action_count {
            Some(index)
        } else {
            None
        },
        None => None,
    }
}

} // verus!
