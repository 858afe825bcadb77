//! The applet's decisions: what each message does to the applet's state
//! and what it asks the host to do.
//!
//! The host owns the windows, the files and the bus. It hands each message
//! to `NotificationApplet::update`, which changes the state and returns
//! the effects for the host to perform.

use crate::config::{AppletConfig, ConfigView, PanelAnchor, PopupPosition, PositionMode};
use crate::dbus::types::{Notification, NotificationView};
use crate::manager::storage::notification_views;
use crate::manager::{expired_ids, ManagerView, NotificationManager};
use crate::string_map::{map_of, str_equal, with_entry};
use crate::time::Timestamp;
use crate::ui::animation::{NotificationAnimationType, ProgressIndicator};
use crate::ui::url_parser::{extract_first_url, first_url, url_spans};
use std::collections::VecDeque;
use vstd::prelude::*;
use vstd::string::StrSliceExecFns;

verus! {

/// Which notification of the list is selected for keyboard navigation,
/// and which of its actions.
#[derive(Debug, Clone, Copy, PartialEq, Eq, Structural)]
pub struct Selection {
    /// Position of the selected notification among the active ones.
    pub notification: Option<usize>,
    /// Position of the selected action within the selected notification.
    pub action: Option<usize>,
}

impl Selection {
    /// No selection.
    pub open spec fn none() -> Selection {
        Selection { notification: None, action: None }
    }

    /// The selection after a step up in a list of `count` notifications:
    /// the one before the selected, and the last from the first or from no
    /// selection. The action selection is dropped. In an empty list
    /// nothing is selected.
    pub open spec fn up(self, count: nat) -> Selection {
        if count == 0 {
            Selection::none()
        } else {
            Selection {
                notification: Some(
                    match self.notification {
                        None => (count - 1) as usize,
                        Some(index) => if index == 0 {
                            (count - 1) as usize
                        } else {
                            (index - 1) as usize
                        },
                    },
                ),
                action: None,
            }
        }
    }

    /// The selection after a step down in a list of `count` notifications:
    /// the one after the selected, and the first from the last or from no
    /// selection. The action selection is dropped. In an empty list
    /// nothing is selected.
    pub open spec fn down(self, count: nat) -> Selection {
        if count == 0 {
            Selection::none()
        } else {
            Selection {
                notification: Some(
                    match self.notification {
                        None => 0,
                        Some(index) => if index + 1 >= count {
                            0
                        } else {
                            (index + 1) as usize
                        },
                    },
                ),
                action: None,
            }
        }
    }

    /// The action selection after a step through `action_count` actions:
    /// the next action, and the first from the last or from no selection;
    /// none where there are no actions.
    pub open spec fn next_action(action: Option<usize>, action_count: nat) -> Option<usize> {
        if action_count == 0 {
            None
        } else {
            Some(
                match action {
                    None => 0,
                    Some(index) => if index + 1 >= action_count {
                        0
                    } else {
                        (index + 1) as usize
                    },
                },
            )
        }
    }

    /// The selection brought back within a list of `count` notifications:
    /// dropped where the list is empty; moved to the last notification,
    /// without an action, where it pointed past the end.
    pub open spec fn within(self, count: nat) -> Selection {
        if count == 0 {
            Selection::none()
        } else {
            match self.notification {
                Some(index) => if index >= count {
                    Selection { notification: Some((count - 1) as usize), action: None }
                } else {
                    self
                },
                None => self,
            }
        }
    }

    /// Nothing selected.
    pub fn new() -> (s: Selection)
        ensures
            s == Selection::none(),
    {
        Selection { notification: None, action: None }
    }

    /// Clear both notification and action selection.
    pub fn clear_selection(&mut self)
        ensures
            *final(self) == Selection::none(),
    {
        self.notification = None;
        self.action = None;
    }

    /// Clear only the action selection.
    pub fn clear_action_selection(&mut self)
        ensures
            *final(self) == (Selection { action: None, ..*old(self) }),
    {
        self.action = None;
    }

    /// Move the selection up in a list of `count` notifications.
    pub fn navigate_up(&mut self, count: usize)
        ensures
            *final(self) == old(self).up(count as nat),
    {
        if count == 0 {
            self.clear_selection();
            return ;
        }
        self.notification = Some(
            match self.notification {
                None => count - 1,
                Some(index) => if index == 0 {
                    count - 1
                } else {
                    index - 1
                },
            },
        );
        self.action = None;
    }

    /// Move the selection down in a list of `count` notifications.
    pub fn navigate_down(&mut self, count: usize)
        ensures
            *final(self) == old(self).down(count as nat),
    {
        if count == 0 {
            self.clear_selection();
            return ;
        }
        self.notification = Some(
            match self.notification {
                None => 0,
                Some(index) => if index >= count - 1 {
                    0
                } else {
                    index + 1
                },
            },
        );
        self.action = None;
    }

    /// Move the action selection to the next of `action_count` actions.
    pub fn cycle_actions(&mut self, action_count: usize)
        ensures
            *final(self) == (Selection {
                action: Selection::next_action(old(self).action, action_count as nat),
                ..*old(self)
            }),
    {
        if action_count == 0 {
            self.action = None;
            return ;
        }
        self.action = Some(
            match self.action {
                None => 0,
                Some(index) => if index >= action_count - 1 {
                    0
                } else {
                    index + 1
                },
            },
        );
    }
}

/// The action that a number key stands for among `action_count` actions:
/// the key `1` the first action, and none where the number is 0 or there
/// are fewer actions.
pub open spec fn quick_action(number: u8, action_count: nat) -> Option<usize> {
    if 1 <= number && number - 1 < action_count {
        Some((number - 1) as usize)
    } else {
        None
    }
}

/// The action that a number key stands for.
pub fn quick_action_index(number: u8, action_count: usize) -> (r: Option<usize>)
    ensures
        r == quick_action(number, action_count as nat),
{
    if number >= 1 && ((number - 1) as usize) < action_count {
        Some((number - 1) as usize)
    } else {
        None
    }
}

/// A key of the keyboard, as far as the applet tells keys apart.
#[derive(Debug, Clone, PartialEq, Eq)]
pub enum Key {
    Escape,
    ArrowUp,
    ArrowDown,
    Enter,
    Delete,
    Tab,
    /// A key that produces text.
    Character(String),
    /// Any other key.
    Other,
}

/// A key press with the modifiers that were held.
#[derive(Debug, Clone, PartialEq, Eq)]
pub struct KeyPress {
    pub key: Key,
    pub control: bool,
    pub alt: bool,
    pub shift: bool,
}

/// What a key press asks for.
#[derive(Debug, Clone, Copy, PartialEq, Eq, Structural)]
pub enum KeyCommand {
    /// The key press means nothing to the applet.
    Ignore,
    ClosePopup,
    ToggleDND,
    SetUrgencyLevel(u8),
    NavigateUp,
    NavigateDown,
    ActivateSelected,
    DismissSelected,
    CycleActions,
    InvokeQuickAction(u8),
}

/// The digit from 1 to 9 that a character is, if it is one.
pub open spec fn digit_key(c: char) -> Option<u8> {
    if '1' <= c <= '9' {
        Some((c as u32 - '0' as u32) as u8)
    } else {
        None
    }
}

/// What a key that produces `text` asks for. With Control held, `d`
/// toggles Do Not Disturb and `1`, `2`, `3` set the minimum urgency to
/// low, normal, critical. Without Control and Alt, and with the popup
/// open, a text that starts with a digit from 1 to 9 invokes the action
/// of that number.
pub open spec fn character_command(text: Seq<char>, control: bool, alt: bool, popup_open: bool)
    -> KeyCommand {
    if control && text == "d"@ {
        KeyCommand::ToggleDND
    } else if control && text == "1"@ {
        KeyCommand::SetUrgencyLevel(0)
    } else if control && text == "2"@ {
        KeyCommand::SetUrgencyLevel(1)
    } else if control && text == "3"@ {
        KeyCommand::SetUrgencyLevel(2)
    } else if !control && !alt && popup_open && text.len() > 0 && digit_key(text[0]) is Some {
        KeyCommand::InvokeQuickAction(digit_key(text[0])->0)
    } else {
        KeyCommand::Ignore
    }
}

/// What a key press asks for. Escape closes the popup. The arrows, Enter,
/// Delete and Tab without Shift work on the list while the popup is open.
pub open spec fn key_command(key: Key, control: bool, alt: bool, shift: bool, popup_open: bool)
    -> KeyCommand {
    match key {
        Key::Escape => if popup_open {
            KeyCommand::ClosePopup
        } else {
            KeyCommand::Ignore
        },
        Key::ArrowUp => if popup_open {
            KeyCommand::NavigateUp
        } else {
            KeyCommand::Ignore
        },
        Key::ArrowDown => if popup_open {
            KeyCommand::NavigateDown
        } else {
            KeyCommand::Ignore
        },
        Key::Enter => if popup_open {
            KeyCommand::ActivateSelected
        } else {
            KeyCommand::Ignore
        },
        Key::Delete => if popup_open {
            KeyCommand::DismissSelected
        } else {
            KeyCommand::Ignore
        },
        Key::Tab => if popup_open && !shift {
            KeyCommand::CycleActions
        } else {
            KeyCommand::Ignore
        },
        Key::Character(text) => character_command(text@, control, alt, popup_open),
        Key::Other => KeyCommand::Ignore,
    }
}

/// The digit from 1 to 9 that a character is.
fn digit_of(c: char) -> (r: Option<u8>)
    ensures
        r == digit_key(c),
{
    let code = c as u32;
    if 49 <= code && code <= 57 {
        Some((code - 48) as u8)
    } else {
        None
    }
}

/// Map a key press to what it asks for.
pub fn command_for_key(press: &KeyPress, popup_open: bool) -> (r: KeyCommand)
    ensures
        r == key_command(press.key, press.control, press.alt, press.shift, popup_open),
{
    match &press.key {
        Key::Escape => if popup_open {
            KeyCommand::ClosePopup
        } else {
            KeyCommand::Ignore
        },
        Key::ArrowUp => if popup_open {
            KeyCommand::NavigateUp
        } else {
            KeyCommand::Ignore
        },
        Key::ArrowDown => if popup_open {
            KeyCommand::NavigateDown
        } else {
            KeyCommand::Ignore
        },
        Key::Enter => if popup_open {
            KeyCommand::ActivateSelected
        } else {
            KeyCommand::Ignore
        },
        Key::Delete => if popup_open {
            KeyCommand::DismissSelected
        } else {
            KeyCommand::Ignore
        },
        Key::Tab => if popup_open && !press.shift {
            KeyCommand::CycleActions
        } else {
            KeyCommand::Ignore
        },
        Key::Character(text) => {
            if press.control && str_equal(text.as_str(), "d") {
                KeyCommand::ToggleDND
            } else if press.control && str_equal(text.as_str(), "1") {
                KeyCommand::SetUrgencyLevel(0)
            } else if press.control && str_equal(text.as_str(), "2") {
                KeyCommand::SetUrgencyLevel(1)
            } else if press.control && str_equal(text.as_str(), "3") {
                KeyCommand::SetUrgencyLevel(2)
            } else if !press.control && !press.alt && popup_open && text.as_str().unicode_len()
                > 0 {
                match digit_of(text.as_str().get_char(0)) {
                    Some(digit) => KeyCommand::InvokeQuickAction(digit),
                    None => KeyCommand::Ignore,
                }
            } else {
                KeyCommand::Ignore
            }
        },
        Key::Other => KeyCommand::Ignore,
    }
}

/// Messages that drive the application.
#[derive(Debug)]
pub enum AppletMessage {
    /// Toggle the notification popup.
    TogglePopup,
    /// Close the popup.
    ClosePopup,
    /// A new notification was received from the bus.
    NotificationReceived(Notification),
    /// Dismiss a notification by ID.
    DismissNotification(u32),
    /// Update configuration.
    UpdateConfig(AppletConfig),
    /// Open a URL from a notification.
    OpenUrl(String),
    /// Invoke a notification action.
    InvokeAction { notification_id: u32, action_key: String },
    /// Toggle Do Not Disturb mode.
    ToggleDND,
    /// Set minimum urgency level (0=Low, 1=Normal, 2=Critical).
    SetUrgencyLevel(u8),
    /// Toggle app filter (app_name, enabled).
    ToggleAppFilter(String, bool),
    /// Set position mode (Auto / Panel Relative).
    SetPositionMode(PositionMode),
    /// Set panel anchor point.
    SetPanelAnchor(PanelAnchor),
    /// Set X offset for popup position.
    SetOffsetX(i32),
    /// Set Y offset for popup position.
    SetOffsetY(i32),
    /// Toggle snap-to-edge feature.
    ToggleSnapToEdge,
    /// Set snap-to-edge threshold.
    SetSnapThreshold(u32),
    /// Preview the current popup position.
    PreviewPosition,
    /// Navigate to previous notification (Up arrow).
    NavigateUp,
    /// Navigate to next notification (Down arrow).
    NavigateDown,
    /// Activate selected notification (Enter key).
    ActivateSelected,
    /// Dismiss selected notification (Delete key).
    DismissSelected,
    /// Clear notification selection.
    ClearSelection,
    /// Cycle through action buttons in selected notification (Tab key).
    CycleActions,
    /// Invoke action by number key (1-9).
    InvokeQuickAction(u8),
    /// Animation frame update, with the ids of the notifications whose
    /// animation the host has found complete.
    AnimationFrame(Vec<u32>),
    /// Start appearing animation for notification.
    StartAppearAnimation(u32),
    /// Start dismissing animation for notification.
    StartDismissAnimation(u32),
    /// Complete notification dismissal after animation.
    CompleteNotificationDismissal(u32),
    /// Update prefers-reduced-motion accessibility setting.
    UpdatePrefersReducedMotion(bool),
    /// Tick for periodic updates.
    Tick,
    /// Keyboard event.
    KeyboardEvent(KeyPress),
}

/// What the applet asks the host to do.
#[derive(Debug)]
pub enum Effect {
    /// Open the popup, placed by this position configuration, with this
    /// size in pixels.
    OpenPopup { position: PopupPosition, width: u32, height: u32 },
    /// Close the popup.
    DestroyPopup,
    /// Write the configuration to disk.
    SaveConfig,
    /// Write the history to disk.
    SaveHistory,
    /// Open a URL with the system's handler.
    OpenUrl(String),
    /// Tell the sender of a notification that one of its actions was
    /// invoked.
    SendActionInvoked { notification_id: u32, action_key: String },
    /// Show an animation for a notification.
    StartAnimation { notification_id: u32, kind: NotificationAnimationType, duration_ms: u64 },
}

/// An effect by its characters.
pub enum EffectView {
    OpenPopup { position: PopupPosition, width: u32, height: u32 },
    DestroyPopup,
    SaveConfig,
    SaveHistory,
    OpenUrl(Seq<char>),
    SendActionInvoked { notification_id: u32, action_key: Seq<char> },
    StartAnimation { notification_id: u32, kind: NotificationAnimationType, duration_ms: u64 },
}

impl View for Effect {
    type V = EffectView;

    open spec fn view(&self) -> EffectView {
        match self {
            Effect::OpenPopup { position, width, height } => EffectView::OpenPopup {
                position: *position,
                width: *width,
                height: *height,
            },
            Effect::DestroyPopup => EffectView::DestroyPopup,
            Effect::SaveConfig => EffectView::SaveConfig,
            Effect::SaveHistory => EffectView::SaveHistory,
            Effect::OpenUrl(url) => EffectView::OpenUrl(url@),
            Effect::SendActionInvoked { notification_id, action_key } => {
                EffectView::SendActionInvoked {
                    notification_id: *notification_id,
                    action_key: action_key@,
                }
            },
            Effect::StartAnimation { notification_id, kind, duration_ms } => {
                EffectView::StartAnimation {
                    notification_id: *notification_id,
                    kind: *kind,
                    duration_ms: *duration_ms,
                }
            },
        }
    }
}

/// The views of a run of effects.
pub open spec fn effect_views(effects: Seq<Effect>) -> Seq<EffectView> {
    effects.map_values(|e: Effect| e@)
}

/// The animation that runs for a notification.
#[derive(Debug, Clone, Copy, PartialEq, Eq, Structural)]
pub struct AnimationEntry {
    pub notification_id: u32,
    pub kind: NotificationAnimationType,
}

/// The test for an animation of another notification than `id`.
pub open spec fn other_animation(id: u32) -> spec_fn(AnimationEntry) -> bool {
    |entry: AnimationEntry| entry.notification_id != id
}

/// The animations without those of the notification `id`.
pub open spec fn without_animation(animations: Seq<AnimationEntry>, id: u32) -> Seq<
    AnimationEntry,
> {
    animations.filter(other_animation(id))
}

/// The animations with `kind` running for the notification `id`, in the
/// place of what ran for it before.
pub open spec fn with_animation(
    animations: Seq<AnimationEntry>,
    id: u32,
    kind: NotificationAnimationType,
) -> Seq<AnimationEntry> {
    without_animation(animations, id).push(AnimationEntry { notification_id: id, kind })
}

/// The test for a progress indicator of another notification than `id`.
pub open spec fn other_progress(id: u32) -> spec_fn(ProgressIndicator) -> bool {
    |indicator: ProgressIndicator| indicator.notification_id != id
}

/// The progress indicators without those of the notification `id`.
pub open spec fn without_progress(indicators: Seq<ProgressIndicator>, id: u32) -> Seq<
    ProgressIndicator,
> {
    indicators.filter(other_progress(id))
}

/// The kind of the first animation that runs for the notification `id`.
pub open spec fn animation_kind(animations: Seq<AnimationEntry>, id: u32) -> Option<
    NotificationAnimationType,
>
    decreases animations.len(),
{
    if animations.len() == 0 {
        None
    } else if animations[0].notification_id == id {
        Some(animations[0].kind)
    } else {
        animation_kind(animations.drop_first(), id)
    }
}

/// The first animation for an id stays the first when another entry is
/// added at the end, and an added entry is the first where there was none.
pub proof fn lemma_animation_kind_push(
    animations: Seq<AnimationEntry>,
    entry: AnimationEntry,
    id: u32,
)
    ensures
        animation_kind(animations.push(entry), id) == match animation_kind(animations, id) {
            Some(kind) => Some(kind),
            None => if entry.notification_id == id {
                Some(entry.kind)
            } else {
                None
            },
        },
    decreases animations.len(),
{
    if animations.len() == 0 {
        assert(animations.push(entry).drop_first() =~= Seq::empty());
        assert(animation_kind(animations.push(entry).drop_first(), id) is None);
    } else {
        assert(animations.push(entry).drop_first() =~= animations.drop_first().push(entry));
        lemma_animation_kind_push(animations.drop_first(), entry, id);
    }
}

/// Removes the animations of the notification `id` and returns the kind
/// of the first that ran for it, if one did.
pub fn remove_animation(animations: &mut Vec<AnimationEntry>, id: u32) -> (removed: Option<
    NotificationAnimationType,
>)
    ensures
        final(animations)@ == without_animation(old(animations)@, id),
        removed == animation_kind(old(animations)@, id),
{
    let ghost before = animations@;
    let ghost test = other_animation(id);
    let mut kept: Vec<AnimationEntry> = Vec::new();
    let mut removed: Option<NotificationAnimationType> = None;
    let mut i: usize = 0;
    proof {
        reveal(Seq::filter);
        assert(before.subrange(0, 0) =~= Seq::empty());
    }
    while i < animations.len()
        invariant
            i <= before.len(),
            animations@ == before,
            test == other_animation(id),
            kept@ == before.subrange(0, i as int).filter(test),
            removed == animation_kind(before.subrange(0, i as int), id),
        decreases before.len() - i,
    {
        let entry = animations[i];
        proof {
            let seen = before.subrange(0, i as int);
            assert(before.subrange(0, i as int + 1) =~= seen.push(before[i as int]));
            seen.lemma_filter_push(before[i as int], test);
            lemma_animation_kind_push(seen, before[i as int], id);
        }
        if entry.notification_id == id {
            if removed.is_none() {
                removed = Some(entry.kind);
            }
        } else {
            kept.push(entry);
        }
        i += 1;
    }
    proof {
        assert(before.subrange(0, i as int) =~= before);
    }
    *animations = kept;
    removed
}

/// Removes the progress indicators of the notification `id`.
pub fn remove_progress(indicators: &mut Vec<ProgressIndicator>, id: u32)
    ensures
        final(indicators)@ == without_progress(old(indicators)@, id),
{
    let ghost before = indicators@;
    let ghost test = other_progress(id);
    let mut kept: Vec<ProgressIndicator> = Vec::new();
    let mut rest: Vec<ProgressIndicator> = Vec::new();
    core::mem::swap(&mut rest, indicators);
    let mut reversed: Vec<ProgressIndicator> = Vec::new();
    while rest.len() > 0
        invariant
            rest@.len() + reversed@.len() == before.len(),
            forall|k: int| 0 <= k < rest@.len() ==> rest@[k] == before[k],
            forall|k: int|
                0 <= k < reversed@.len() ==> reversed@[k] == before[before.len() - 1 - k],
        decreases rest.len(),
    {
        let indicator = rest.pop().unwrap();
        reversed.push(indicator);
    }
    let ghost mut seen: int = 0;
    proof {
        reveal(Seq::filter);
        assert(before.subrange(0, 0) =~= Seq::empty());
    }
    while reversed.len() > 0
        invariant
            0 <= seen,
            seen + reversed@.len() == before.len(),
            test == other_progress(id),
            forall|k: int|
                0 <= k < reversed@.len() ==> reversed@[k] == before[before.len() - 1 - k],
            kept@ == before.subrange(0, seen).filter(test),
        decreases reversed.len(),
    {
        let indicator = reversed.pop().unwrap();
        proof {
            assert(indicator == before[seen]);
            assert(before.subrange(0, seen + 1) =~= before.subrange(0, seen).push(before[seen]));
            before.subrange(0, seen).lemma_filter_push(before[seen], test);
        }
        if indicator.notification_id != id {
            kept.push(indicator);
        }
        proof {
            seen = seen + 1;
        }
    }
    proof {
        assert(before.subrange(0, seen) =~= before);
    }
    *indicators = kept;
}

/// Main application state.
#[derive(Debug)]
pub struct NotificationApplet {
    /// Notification manager.
    pub manager: NotificationManager,
    /// Current configuration.
    pub config: AppletConfig,
    /// Whether the popup window is open.
    pub popup_open: bool,
    /// The notification and the action selected by the keyboard.
    pub selection: Selection,
    /// The animations that run, one for a notification at most.
    pub notification_animations: Vec<AnimationEntry>,
    /// Progress indicators for timed notifications.
    pub progress_indicators: Vec<ProgressIndicator>,
    /// Whether reduced motion is preferred (accessibility).
    pub prefers_reduced_motion: bool,
}

/// The state of the applet.
pub struct AppletView {
    pub manager: ManagerView,
    pub config: ConfigView,
    pub popup_open: bool,
    pub selection: Selection,
    pub animations: Seq<AnimationEntry>,
    pub progress: Seq<ProgressIndicator>,
    pub prefers_reduced_motion: bool,
}

impl View for NotificationApplet {
    type V = AppletView;

    open spec fn view(&self) -> AppletView {
        AppletView {
            manager: self.manager@,
            config: self.config@,
            popup_open: self.popup_open,
            selection: self.selection,
            animations: self.notification_animations@,
            progress: self.progress_indicators@,
            prefers_reduced_motion: self.prefers_reduced_motion,
        }
    }
}

/// The state after a message and the effects that it asks for.
pub struct Outcome {
    pub state: AppletView,
    pub effects: Seq<EffectView>,
}

/// What a step takes from outside the applet: the time, the start of a
/// progress indicator made in the step, and for each progress indicator
/// whether its time was up when the step looked.
pub struct Chance {
    pub now: Timestamp,
    pub started: std::time::Instant,
    pub expired: Seq<bool>,
}

/// The minimum urgency that a requested level stands for: a level above
/// 2 counts as 2.
pub open spec fn urgency_level(level: u8) -> u8 {
    if level <= 2 {
        level
    } else {
        2
    }
}

/// The manager after the notifications with the ids `ids` were removed
/// one after the other.
pub open spec fn remove_all(manager: ManagerView, ids: Seq<u32>) -> ManagerView
    decreases ids.len(),
{
    if ids.len() == 0 {
        manager
    } else {
        remove_all(manager, ids.drop_last()).remove(ids.last())
    }
}

/// The items that are not flagged: `items[i]` is kept where `flags[i]` is
/// false.
pub open spec fn unflagged<T>(items: Seq<T>, flags: Seq<bool>) -> Seq<T>
    decreases items.len(),
{
    if items.len() == 0 || flags.len() != items.len() {
        items
    } else if flags.last() {
        unflagged(items.drop_last(), flags.drop_last())
    } else {
        unflagged(items.drop_last(), flags.drop_last()).push(items.last())
    }
}

/// Whether `flags` could be what the clock said of the progress
/// indicators: one flag for each, and an indicator without a positive
/// duration flagged as expired.
pub open spec fn expiry_flags(indicators: Seq<ProgressIndicator>, flags: Seq<bool>) -> bool {
    &&& flags.len() == indicators.len()
    &&& forall|i: int|
        0 <= i < indicators.len() && (#[trigger] indicators[i]).total_duration <= 0 ==> flags[i]
}

impl AppletView {
    /// The state with no effect asked for.
    pub open spec fn quiet(self) -> Outcome {
        Outcome { state: self, effects: Seq::empty() }
    }

    /// The state with one effect asked for.
    pub open spec fn asking(self, effect: EffectView) -> Outcome {
        Outcome { state: self, effects: seq![effect] }
    }

    /// Whether notifications may be animated at all: animations are on
    /// and the user does not prefer reduced motion.
    pub open spec fn motion_allowed(self) -> bool {
        self.config.animations.enabled && !self.prefers_reduced_motion
    }

    /// The number of actions of the active notification at `index`, 0
    /// where there is none.
    pub open spec fn action_count_at(self, index: usize) -> nat {
        if index < self.manager.active.len() {
            self.manager.active[index as int].actions.len()
        } else {
            0
        }
    }

    /// The selection brought back in bounds: within the active
    /// notifications, and without an action that the selected notification
    /// does not have.
    pub open spec fn valid_selection(self) -> Selection {
        let moved = self.selection.within(self.manager.active.len());
        match (moved.notification, moved.action) {
            (Some(index), Some(action)) => if action >= self.action_count_at(index) {
                Selection { action: None, ..moved }
            } else {
                moved
            },
            _ => moved,
        }
    }

    /// Toggle the popup: an open popup is closed; else it is opened where
    /// the configuration places it.
    pub open spec fn toggle_popup(self) -> Outcome {
        if self.popup_open {
            (AppletView { popup_open: false, ..self }).asking(EffectView::DestroyPopup)
        } else {
            (AppletView { popup_open: true, ..self }).asking(
                EffectView::OpenPopup {
                    position: self.config.popup_position,
                    width: self.config.popup_width,
                    height: self.config.popup_height,
                },
            )
        }
    }

    /// Close the popup, where it is open, and drop the selection.
    pub open spec fn close_popup(self) -> Outcome {
        if self.popup_open {
            (AppletView { popup_open: false, selection: Selection::none(), ..self }).asking(
                EffectView::DestroyPopup,
            )
        } else {
            self.quiet()
        }
    }

    /// Preview the popup position: an open popup is closed, to be opened
    /// again at its new place; a closed one is opened.
    pub open spec fn preview_position(self) -> Outcome {
        if self.popup_open {
            (AppletView { popup_open: false, ..self }).asking(EffectView::DestroyPopup)
        } else {
            self.toggle_popup()
        }
    }

    /// Start the appearing animation of a notification, where appearing
    /// is animated.
    pub open spec fn start_appear_animation(self, id: u32) -> Outcome {
        if !self.config.animations.enabled || !self.config.animations.notification_appear {
            self.quiet()
        } else {
            (AppletView {
                animations: with_animation(self.animations, id, NotificationAnimationType::Appearing),
                ..self
            }).asking(
                EffectView::StartAnimation {
                    notification_id: id,
                    kind: NotificationAnimationType::Appearing,
                    duration_ms: 300,
                },
            )
        }
    }

    /// Complete the dismissal of a notification: it leaves the active set
    /// with its animation and its progress indicator, and the selection
    /// is brought back in bounds.
    pub open spec fn complete_dismissal(self, id: u32) -> Outcome {
        let removed = AppletView {
            manager: self.manager.remove(id),
            animations: without_animation(self.animations, id),
            progress: without_progress(self.progress, id),
            ..self
        };
        (AppletView { selection: removed.valid_selection(), ..removed }).quiet()
    }

    /// Start the dismissing animation of a notification; where dismissal
    /// is not animated, the notification is dismissed at once.
    pub open spec fn start_dismiss_animation(self, id: u32) -> Outcome {
        if !self.config.animations.enabled || !self.config.animations.notification_dismiss {
            self.complete_dismissal(id)
        } else {
            (AppletView {
                animations: with_animation(
                    self.animations,
                    id,
                    NotificationAnimationType::Dismissing,
                ),
                ..self
            }).asking(
                EffectView::StartAnimation {
                    notification_id: id,
                    kind: NotificationAnimationType::Dismissing,
                    duration_ms: 200,
                },
            )
        }
    }

    /// Dismiss a notification: with its animation where motion is allowed
    /// and dismissal is animated, else at once.
    pub open spec fn dismiss_notification(self, id: u32) -> Outcome {
        if self.motion_allowed() && self.config.animations.notification_dismiss {
            self.start_dismiss_animation(id)
        } else {
            self.complete_dismissal(id)
        }
    }

    /// A notification was received: it is added to the manager. Where
    /// motion is allowed and appearing is animated, its appearing
    /// animation starts; else, where progress is shown and the
    /// notification has a timeout, it gets a progress indicator that
    /// starts at `started`.
    pub open spec fn notification_received(self, n: NotificationView, started: std::time::Instant)
        -> Outcome {
        let added = AppletView { manager: self.manager.add(n), ..self };
        if self.motion_allowed() && self.config.animations.notification_appear {
            added.start_appear_animation(n.id)
        } else if self.config.animations.show_progress && n.expire_timeout > 0 {
            (AppletView {
                progress: without_progress(self.progress, n.id).push(
                    ProgressIndicator {
                        notification_id: n.id,
                        total_duration: n.expire_timeout as i64,
                        start_time: started,
                    },
                ),
                ..added
            }).quiet()
        } else {
            added.quiet()
        }
    }

    /// The state with the configuration `config`, which is to be saved.
    pub open spec fn configured(self, config: ConfigView) -> Outcome {
        (AppletView { config, ..self }).asking(EffectView::SaveConfig)
    }

    /// Update the configuration: a configuration that is not valid is
    /// sanitized; the manager takes its filters; it is saved.
    pub open spec fn update_config(self, new: ConfigView) -> Outcome {
        let config = if new.is_valid() {
            new
        } else {
            new.sanitized()
        };
        (AppletView {
            manager: ManagerView {
                do_not_disturb: config.do_not_disturb,
                min_urgency_level: urgency_level(config.min_urgency_level),
                app_filters: map_of(config.app_filters),
                ..self.manager
            },
            ..self
        }).configured(config)
    }

    /// Toggle Do Not Disturb mode, in the configuration and the manager.
    pub open spec fn toggle_dnd(self) -> Outcome {
        let enabled = !self.config.do_not_disturb;
        (AppletView {
            manager: ManagerView { do_not_disturb: enabled, ..self.manager },
            ..self
        }).configured(ConfigView { do_not_disturb: enabled, ..self.config })
    }

    /// Set the minimum urgency level, in the configuration and the
    /// manager.
    pub open spec fn set_urgency_level(self, level: u8) -> Outcome {
        let level = urgency_level(level);
        (AppletView {
            manager: ManagerView { min_urgency_level: level, ..self.manager },
            ..self
        }).configured(ConfigView { min_urgency_level: level, ..self.config })
    }

    /// Set the filter of an application: the manager shows it where it is
    /// enabled, and the configuration records whether it is blocked.
    pub open spec fn toggle_app_filter(self, app_name: Seq<char>, enabled: bool) -> Outcome {
        (AppletView {
            manager: ManagerView {
                app_filters: self.manager.app_filters.insert(app_name, enabled),
                ..self.manager
            },
            ..self
        }).configured(
            ConfigView {
                app_filters: with_entry(self.config.app_filters, app_name, !enabled),
                ..self.config
            },
        )
    }

    /// Change the popup position in the configuration.
    pub open spec fn set_popup_position(self, position: PopupPosition) -> Outcome {
        self.configured(ConfigView { popup_position: position, ..self.config })
    }

    /// Activate the selected notification: open the first URL of its
    /// body, or else invoke its first action.
    pub open spec fn activate_selected(self) -> Outcome {
        match self.selection.notification {
            Some(index) => if index < self.manager.active.len() {
                let n = self.manager.active[index as int];
                match first_url(n.body, url_spans(n.body)) {
                    Some(url) => self.asking(EffectView::OpenUrl(url)),
                    None => if n.actions.len() > 0 {
                        self.asking(
                            EffectView::SendActionInvoked {
                                notification_id: n.id,
                                action_key: n.actions[0].key,
                            },
                        )
                    } else {
                        self.quiet()
                    },
                }
            } else {
                self.quiet()
            },
            None => self.quiet(),
        }
    }

    /// Dismiss the selected notification and drop the selection.
    pub open spec fn dismiss_selected(self) -> Outcome {
        match self.selection.notification {
            Some(index) => if index < self.manager.active.len() {
                (AppletView { selection: Selection::none(), ..self }).dismiss_notification(
                    self.manager.active[index as int].id,
                )
            } else {
                self.quiet()
            },
            None => self.quiet(),
        }
    }

    /// Move the action selection to the next action of the selected
    /// notification.
    pub open spec fn cycle_actions(self) -> Outcome {
        match self.selection.notification {
            Some(index) => if index < self.manager.active.len() {
                (AppletView {
                    selection: Selection {
                        action: Selection::next_action(
                            self.selection.action,
                            self.action_count_at(index),
                        ),
                        ..self.selection
                    },
                    ..self
                }).quiet()
            } else {
                self.quiet()
            },
            None => self.quiet(),
        }
    }

    /// Invoke the action of the selected notification that a number key
    /// stands for.
    pub open spec fn invoke_quick_action(self, number: u8) -> Outcome {
        match self.selection.notification {
            Some(index) => if index < self.manager.active.len() {
                let n = self.manager.active[index as int];
                match quick_action(number, n.actions.len()) {
                    Some(action) => self.asking(
                        EffectView::SendActionInvoked {
                            notification_id: n.id,
                            action_key: n.actions[action as int].key,
                        },
                    ),
                    None => self.quiet(),
                }
            } else {
                self.quiet()
            },
            None => self.quiet(),
        }
    }

    /// Move the selection up or down.
    pub open spec fn navigate(self, up: bool) -> Outcome {
        (AppletView {
            selection: if up {
                self.selection.up(self.manager.active.len())
            } else {
                self.selection.down(self.manager.active.len())
            },
            ..self
        }).quiet()
    }

    /// What a key press does.
    pub open spec fn keyboard_event(self, press: KeyPress) -> Outcome {
        match key_command(press.key, press.control, press.alt, press.shift, self.popup_open) {
            KeyCommand::Ignore => self.quiet(),
            KeyCommand::ClosePopup => self.close_popup(),
            KeyCommand::ToggleDND => self.toggle_dnd(),
            KeyCommand::SetUrgencyLevel(level) => self.set_urgency_level(level),
            KeyCommand::NavigateUp => self.navigate(true),
            KeyCommand::NavigateDown => self.navigate(false),
            KeyCommand::ActivateSelected => self.activate_selected(),
            KeyCommand::DismissSelected => self.dismiss_selected(),
            KeyCommand::CycleActions => self.cycle_actions(),
            KeyCommand::InvokeQuickAction(number) => self.invoke_quick_action(number),
        }
    }

    /// The periodic tick at `now`: the expired notifications are removed
    /// and the selection is brought back in bounds. Where the history is
    /// enabled it is tidied by the configuration's limits and saved.
    pub open spec fn tick(self, now: Timestamp) -> Outcome {
        let swept = AppletView {
            manager: remove_all(self.manager, expired_ids(self.manager.active, now)),
            ..self
        };
        let settled = AppletView { selection: swept.valid_selection(), ..swept };
        if self.config.history_enabled {
            (AppletView {
                manager: settled.manager.cleanup(
                    self.config.max_history_items,
                    self.config.history_retention_days,
                    now,
                ),
                ..settled
            }).asking(EffectView::SaveHistory)
        } else {
            settled.quiet()
        }
    }

    /// What the completed animations lead to, taken in their order: each
    /// leaves the running animations, and the first that was a dismissal
    /// completes it and ends the frame.
    pub open spec fn finish_animations(self, completed: Seq<u32>) -> Outcome
        decreases completed.len(),
    {
        if completed.len() == 0 {
            self.quiet()
        } else {
            let id = completed[0];
            match animation_kind(self.animations, id) {
                Some(kind) => {
                    let removed = AppletView {
                        animations: without_animation(self.animations, id),
                        ..self
                    };
                    if kind == NotificationAnimationType::Dismissing {
                        removed.complete_dismissal(id)
                    } else {
                        removed.finish_animations(completed.drop_first())
                    }
                },
                None => self.finish_animations(completed.drop_first()),
            }
        }
    }

    /// An animation frame: the progress indicators whose time is up leave,
    /// and the completed animations are finished.
    pub open spec fn animation_frame(self, completed: Seq<u32>, expired: Seq<bool>) -> Outcome {
        (AppletView { progress: unflagged(self.progress, expired), ..self }).finish_animations(
            completed,
        )
    }

    /// The state and the effects that follow a message.
    pub open spec fn step(self, message: AppletMessage, chance: Chance) -> Outcome {
        match message {
            AppletMessage::TogglePopup => self.toggle_popup(),
            AppletMessage::ClosePopup => self.close_popup(),
            AppletMessage::NotificationReceived(n) => self.notification_received(
                n@,
                chance.started,
            ),
            AppletMessage::DismissNotification(id) => self.dismiss_notification(id),
            AppletMessage::UpdateConfig(config) => self.update_config(config@),
            AppletMessage::OpenUrl(url) => self.asking(EffectView::OpenUrl(url@)),
            AppletMessage::InvokeAction { notification_id, action_key } => self.asking(
                EffectView::SendActionInvoked { notification_id, action_key: action_key@ },
            ),
            AppletMessage::ToggleDND => self.toggle_dnd(),
            AppletMessage::SetUrgencyLevel(level) => self.set_urgency_level(level),
            AppletMessage::ToggleAppFilter(app_name, enabled) => self.toggle_app_filter(
                app_name@,
                enabled,
            ),
            AppletMessage::SetPositionMode(mode) => self.set_popup_position(
                PopupPosition { mode, ..self.config.popup_position },
            ),
            AppletMessage::SetPanelAnchor(anchor) => self.set_popup_position(
                PopupPosition { anchor, ..self.config.popup_position },
            ),
            AppletMessage::SetOffsetX(offset_x) => self.set_popup_position(
                PopupPosition { offset_x, ..self.config.popup_position },
            ),
            AppletMessage::SetOffsetY(offset_y) => self.set_popup_position(
                PopupPosition { offset_y, ..self.config.popup_position },
            ),
            AppletMessage::ToggleSnapToEdge => self.set_popup_position(
                PopupPosition {
                    snap_to_edge: !self.config.popup_position.snap_to_edge,
                    ..self.config.popup_position
                },
            ),
            AppletMessage::SetSnapThreshold(snap_threshold) => self.set_popup_position(
                PopupPosition { snap_threshold, ..self.config.popup_position },
            ),
            AppletMessage::PreviewPosition => self.preview_position(),
            AppletMessage::NavigateUp => self.navigate(true),
            AppletMessage::NavigateDown => self.navigate(false),
            AppletMessage::ActivateSelected => self.activate_selected(),
            AppletMessage::DismissSelected => self.dismiss_selected(),
            AppletMessage::ClearSelection => (AppletView {
                selection: Selection::none(),
                ..self
            }).quiet(),
            AppletMessage::CycleActions => self.cycle_actions(),
            AppletMessage::InvokeQuickAction(number) => self.invoke_quick_action(number),
            AppletMessage::AnimationFrame(completed) => self.animation_frame(
                completed@,
                chance.expired,
            ),
            AppletMessage::StartAppearAnimation(id) => self.start_appear_animation(id),
            AppletMessage::StartDismissAnimation(id) => self.start_dismiss_animation(id),
            AppletMessage::CompleteNotificationDismissal(id) => self.complete_dismissal(id),
            AppletMessage::UpdatePrefersReducedMotion(prefers) => (AppletView {
                prefers_reduced_motion: prefers,
                ..self
            }).quiet(),
            AppletMessage::Tick => self.tick(chance.now),
            AppletMessage::KeyboardEvent(press) => self.keyboard_event(press),
        }
    }
}

impl NotificationApplet {
    /// The state together with effects, as an outcome.
    pub open spec fn outcome(&self, effects: Seq<Effect>) -> Outcome {
        Outcome { state: self@, effects: effect_views(effects) }
    }

    /// The state of an applet that starts with `config` and, where the
    /// history is enabled, with the loaded `history`, tidied by the
    /// configuration's limits as of the system clock's time.
    pub fn new(config: AppletConfig, history: VecDeque<Notification>) -> (applet:
        NotificationApplet)
        ensures
            applet@.config == config@,
            !applet@.popup_open,
            applet@.selection == Selection::none(),
            applet@.animations.len() == 0,
            applet@.progress.len() == 0,
            !applet@.prefers_reduced_motion,
            exists|now: Timestamp|
                now.clock_reading() && applet@.manager == (ManagerView {
                    do_not_disturb: config.do_not_disturb,
                    min_urgency_level: urgency_level(config.min_urgency_level),
                    app_filters: map_of(config@.app_filters),
                    ..if config.history_enabled {
                        #[trigger] ManagerView::seeded(
                            notification_views(history@),
                            config.max_history_items,
                            config.history_retention_days,
                            now,
                        )
                    } else {
                        ManagerView::initial()
                    }
                }),
    {
        let ghost mut seed_time = Timestamp { secs: 0, nanos: 0 };
        let mut manager = if config.history_enabled {
            let manager = NotificationManager::with_history(
                history,
                config.max_history_items,
                config.history_retention_days,
            );
            proof {
                seed_time = choose|now: Timestamp|
                    now.clock_reading() && manager@ == ManagerView::seeded(
                        notification_views(history@),
                        config.max_history_items,
                        config.history_retention_days,
                        now,
                    );
            }
            manager
        } else {
            NotificationManager::new()
        };
        manager.set_do_not_disturb(config.do_not_disturb);
        manager.set_min_urgency_level(config.min_urgency_level);
        let filters = config.app_filters.clone();
        proof {
            assert(filters.entries() =~= config.app_filters.entries());
        }
        manager.load_app_filters(filters);
        let applet = NotificationApplet {
            manager,
            config,
            popup_open: false,
            selection: Selection::new(),
            notification_animations: Vec::new(),
            progress_indicators: Vec::new(),
            prefers_reduced_motion: false,
        };
        proof {
            assert(applet@.manager == (ManagerView {
                do_not_disturb: config.do_not_disturb,
                min_urgency_level: urgency_level(config.min_urgency_level),
                app_filters: map_of(config@.app_filters),
                ..if config.history_enabled {
                    ManagerView::seeded(
                        notification_views(history@),
                        config.max_history_items,
                        config.history_retention_days,
                        seed_time,
                    )
                } else {
                    ManagerView::initial()
                }
            }));
        }
        applet
    }

    /// Clear selection if the notification list is empty; returns whether
    /// it was empty.
    pub fn clear_selection_if_no_notifications(&mut self) -> (empty: bool)
        ensures
            empty == (old(self)@.manager.active.len() == 0),
            final(self)@ == (AppletView {
                selection: if empty {
                    Selection::none()
                } else {
                    old(self)@.selection
                },
                ..old(self)@
            }),
    {
        if self.manager.active_count() == 0 {
            self.selection.clear_selection();
            true
        } else {
            false
        }
    }

    /// Validate and fix the selection after the notifications changed.
    pub fn validate_selection(&mut self)
        ensures
            final(self)@ == (AppletView {
                selection: old(self)@.valid_selection(),
                ..old(self)@
            }),
    {
        let count = self.manager.active_count();
        if count == 0 {
            self.selection.clear_selection();
            return ;
        }
        match self.selection.notification {
            Some(index) => {
                if index >= count {
                    self.selection.notification = Some(count - 1);
                    self.selection.clear_action_selection();
                }
            },
            None => {},
        }
        match (self.selection.notification, self.selection.action) {
            (Some(index), Some(action)) => {
                match self.manager.get_notification_at(index) {
                    Some(notification) => {
                        if action >= notification.actions.len() {
                            self.selection.clear_action_selection();
                        }
                    },
                    None => {},
                }
            },
            _ => {},
        }
    }

    /// Whether the host should deliver animation frames: motion is
    /// allowed and an animation or a progress indicator runs.
    pub fn needs_animation_frames(&self) -> (r: bool)
        ensures
            r == (self@.motion_allowed() && (self@.animations.len() > 0 || self@.progress.len()
                > 0)),
    {
        self.config.animations.enabled && !self.prefers_reduced_motion && (
        self.notification_animations.len() > 0 || self.progress_indicators.len() > 0)
    }

    /// Toggle the notification popup.
    pub fn toggle_popup(&mut self) -> (effects: Vec<Effect>)
        ensures
            final(self).outcome(effects@) == old(self)@.toggle_popup(),
    {
        let effects = if self.popup_open {
            self.popup_open = false;
            vec![Effect::DestroyPopup]
        } else {
            self.popup_open = true;
            vec![
                Effect::OpenPopup {
                    position: self.config.popup_position,
                    width: self.config.popup_width,
                    height: self.config.popup_height,
                },
            ]
        };
        proof {
            assert(effect_views(effects@) =~= old(self)@.toggle_popup().effects);
        }
        effects
    }

    /// Close the popup.
    pub fn close_popup(&mut self) -> (effects: Vec<Effect>)
        ensures
            final(self).outcome(effects@) == old(self)@.close_popup(),
    {
        let effects = if self.popup_open {
            self.popup_open = false;
            self.selection.clear_selection();
            vec![Effect::DestroyPopup]
        } else {
            Vec::new()
        };
        proof {
            assert(effect_views(effects@) =~= old(self)@.close_popup().effects);
        }
        effects
    }

    /// Preview the current popup position.
    pub fn preview_position(&mut self) -> (effects: Vec<Effect>)
        ensures
            final(self).outcome(effects@) == old(self)@.preview_position(),
    {
        if self.popup_open {
            self.popup_open = false;
            let effects = vec![Effect::DestroyPopup];
            proof {
                assert(effect_views(effects@) =~= old(self)@.preview_position().effects);
            }
            effects
        } else {
            self.toggle_popup()
        }
    }

    /// Start the appearing animation for a notification.
    pub fn start_appear_animation(&mut self, id: u32) -> (effects: Vec<Effect>)
        ensures
            final(self).outcome(effects@) == old(self)@.start_appear_animation(id),
    {
        if !self.config.animations.enabled || !self.config.animations.notification_appear {
            let effects: Vec<Effect> = Vec::new();
            proof {
                assert(effect_views(effects@) =~= Seq::empty());
            }
            return effects;
        }
        remove_animation(&mut self.notification_animations, id);
        self.notification_animations.push(
            AnimationEntry { notification_id: id, kind: NotificationAnimationType::Appearing },
        );
        let effects = vec![
            Effect::StartAnimation {
                notification_id: id,
                kind: NotificationAnimationType::Appearing,
                duration_ms: 300,
            },
        ];
        proof {
            assert(effect_views(effects@) =~= old(self)@.start_appear_animation(id).effects);
        }
        effects
    }

    /// Complete notification dismissal after its animation.
    pub fn complete_notification_dismissal(&mut self, id: u32) -> (effects: Vec<Effect>)
        ensures
            final(self).outcome(effects@) == old(self)@.complete_dismissal(id),
    {
        self.manager.remove_notification(id);
        remove_animation(&mut self.notification_animations, id);
        remove_progress(&mut self.progress_indicators, id);
        self.validate_selection();
        let effects: Vec<Effect> = Vec::new();
        proof {
            assert(effect_views(effects@) =~= Seq::empty());
        }
        effects
    }

    /// Start the dismissing animation for a notification.
    pub fn start_dismiss_animation(&mut self, id: u32) -> (effects: Vec<Effect>)
        ensures
            final(self).outcome(effects@) == old(self)@.start_dismiss_animation(id),
    {
        if !self.config.animations.enabled || !self.config.animations.notification_dismiss {
            return self.complete_notification_dismissal(id);
        }
        remove_animation(&mut self.notification_animations, id);
        self.notification_animations.push(
            AnimationEntry { notification_id: id, kind: NotificationAnimationType::Dismissing },
        );
        let effects = vec![
            Effect::StartAnimation {
                notification_id: id,
                kind: NotificationAnimationType::Dismissing,
                duration_ms: 200,
            },
        ];
        proof {
            assert(effect_views(effects@) =~= old(self)@.start_dismiss_animation(id).effects);
        }
        effects
    }

    /// Dismiss a notification by ID.
    pub fn dismiss_notification(&mut self, id: u32) -> (effects: Vec<Effect>)
        ensures
            final(self).outcome(effects@) == old(self)@.dismiss_notification(id),
    {
        if self.config.animations.enabled && self.config.animations.notification_dismiss
            && !self.prefers_reduced_motion {
            self.start_dismiss_animation(id)
        } else {
            self.complete_notification_dismissal(id)
        }
    }

    /// A new notification was received from the bus.
    pub fn notification_received(&mut self, notification: Notification) -> (effects: Vec<Effect>)
        ensures
            exists|started: std::time::Instant|
                final(self).outcome(effects@) == #[trigger] old(self)@.notification_received(
                    notification@,
                    started,
                ),
    {
        let id = notification.id;
        let expire_timeout = notification.expire_timeout;
        let animate = self.config.animations.enabled && !self.prefers_reduced_motion
            && self.config.animations.notification_appear;
        let progress = self.config.animations.show_progress && expire_timeout > 0;
        self.manager.add_notification(notification);
        if animate {
            let effects = self.start_appear_animation(id);
            proof {
                let started = vstd::pervasive::arbitrary::<std::time::Instant>();
                assert(self.outcome(effects@) == old(self)@.notification_received(
                    notification@,
                    started,
                ));
            }
            return effects;
        }
        let effects: Vec<Effect> = Vec::new();
        proof {
            assert(effect_views(effects@) =~= Seq::empty());
        }
        if progress {
            remove_progress(&mut self.progress_indicators, id);
            let indicator = ProgressIndicator::new(id, expire_timeout as i64);
            let ghost started = indicator.start_time;
            self.progress_indicators.push(indicator);
            proof {
                assert(self.outcome(effects@) == old(self)@.notification_received(
                    notification@,
                    started,
                ));
            }
        } else {
            proof {
                let started = vstd::pervasive::arbitrary::<std::time::Instant>();
                assert(self.outcome(effects@) == old(self)@.notification_received(
                    notification@,
                    started,
                ));
            }
        }
        effects
    }

    /// Update configuration.
    pub fn update_config(&mut self, new_config: AppletConfig) -> (effects: Vec<Effect>)
        ensures
            final(self).outcome(effects@) == old(self)@.update_config(new_config@),
    {
        let mut config = new_config;
        if !config.validate() {
            config.sanitize();
        }
        self.manager.set_do_not_disturb(config.do_not_disturb);
        self.manager.set_min_urgency_level(config.min_urgency_level);
        let filters = config.app_filters.clone();
        proof {
            assert(filters.entries() =~= config.app_filters.entries());
        }
        self.manager.load_app_filters(filters);
        self.config = config;
        let effects = vec![Effect::SaveConfig];
        proof {
            assert(effect_views(effects@) =~= seq![EffectView::SaveConfig]);
        }
        effects
    }

    /// The effects of a changed configuration: it is saved.
    fn save_config(&self) -> (effects: Vec<Effect>)
        ensures
            effect_views(effects@) == seq![EffectView::SaveConfig],
    {
        let effects = vec![Effect::SaveConfig];
        proof {
            assert(effect_views(effects@) =~= seq![EffectView::SaveConfig]);
        }
        effects
    }

    /// Toggle Do Not Disturb mode.
    pub fn toggle_dnd(&mut self) -> (effects: Vec<Effect>)
        ensures
            final(self).outcome(effects@) == old(self)@.toggle_dnd(),
    {
        self.config.do_not_disturb = !self.config.do_not_disturb;
        self.manager.set_do_not_disturb(self.config.do_not_disturb);
        self.save_config()
    }

    /// Set minimum urgency level (0=Low, 1=Normal, 2=Critical).
    pub fn set_urgency_level(&mut self, level: u8) -> (effects: Vec<Effect>)
        ensures
            final(self).outcome(effects@) == old(self)@.set_urgency_level(level),
    {
        self.config.min_urgency_level = if level <= 2 {
            level
        } else {
            2
        };
        self.manager.set_min_urgency_level(self.config.min_urgency_level);
        self.save_config()
    }

    /// Toggle app filter: the application is shown where `enabled`.
    pub fn toggle_app_filter(&mut self, app_name: String, enabled: bool) -> (effects: Vec<Effect>)
        ensures
            final(self).outcome(effects@) == old(self)@.toggle_app_filter(app_name@, enabled),
    {
        self.config.app_filters.insert(app_name.clone(), !enabled);
        self.manager.set_app_filter(app_name, enabled);
        self.save_config()
    }

    /// Change the popup position configuration.
    pub fn set_popup_position(&mut self, position: PopupPosition) -> (effects: Vec<Effect>)
        ensures
            final(self).outcome(effects@) == old(self)@.set_popup_position(position),
    {
        self.config.popup_position = position;
        self.save_config()
    }

    /// Navigate to the previous notification (up) or the next (down).
    pub fn navigate(&mut self, up: bool) -> (effects: Vec<Effect>)
        ensures
            final(self).outcome(effects@) == old(self)@.navigate(up),
    {
        let count = self.manager.active_count();
        if up {
            self.selection.navigate_up(count);
        } else {
            self.selection.navigate_down(count);
        }
        let effects: Vec<Effect> = Vec::new();
        proof {
            assert(effect_views(effects@) =~= Seq::empty());
        }
        effects
    }

    /// Activate the selected notification.
    pub fn activate_selected(&mut self) -> (effects: Vec<Effect>)
        ensures
            final(self).outcome(effects@) == old(self)@.activate_selected(),
    {
        let mut effects: Vec<Effect> = Vec::new();
        proof {
            assert(effect_views(effects@) =~= Seq::empty());
        }
        match self.selection.notification {
            Some(index) => {
                match self.manager.get_notification_at(index) {
                    Some(notification) => {
                        match extract_first_url(notification.body.as_str()) {
                            Some(url) => {
                                effects.push(Effect::OpenUrl(url));
                                proof {
                                    assert(effect_views(effects@) =~= seq![
                                        EffectView::OpenUrl(url@),
                                    ]);
                                }
                            },
                            None => {
                                if notification.actions.len() > 0 {
                                    let action_key = notification.actions[0].key.clone();
                                    effects.push(
                                        Effect::SendActionInvoked {
                                            notification_id: notification.id,
                                            action_key,
                                        },
                                    );
                                    proof {
                                        assert(effect_views(effects@) =~= seq![
                                            EffectView::SendActionInvoked {
                                                notification_id: notification.id,
                                                action_key: action_key@,
                                            },
                                        ]);
                                    }
                                }
                            },
                        }
                    },
                    None => {},
                }
            },
            None => {},
        }
        effects
    }

    /// Dismiss the selected notification.
    pub fn dismiss_selected(&mut self) -> (effects: Vec<Effect>)
        ensures
            final(self).outcome(effects@) == old(self)@.dismiss_selected(),
    {
        let selected = match self.selection.notification {
            Some(index) => match self.manager.get_notification_at(index) {
                Some(notification) => Some(notification.id),
                None => None,
            },
            None => None,
        };
        match selected {
            Some(id) => {
                self.selection.clear_selection();
                self.dismiss_notification(id)
            },
            None => {
                let effects: Vec<Effect> = Vec::new();
                proof {
                    assert(effect_views(effects@) =~= Seq::empty());
                }
                effects
            },
        }
    }

    /// Clear notification selection.
    pub fn clear_selection(&mut self) -> (effects: Vec<Effect>)
        ensures
            final(self).outcome(effects@) == (AppletView {
                selection: Selection::none(),
                ..old(self)@
            }).quiet(),
    {
        self.selection.clear_selection();
        let effects: Vec<Effect> = Vec::new();
        proof {
            assert(effect_views(effects@) =~= Seq::empty());
        }
        effects
    }

    /// Cycle through action buttons in the selected notification.
    pub fn cycle_actions(&mut self) -> (effects: Vec<Effect>)
        ensures
            final(self).outcome(effects@) == old(self)@.cycle_actions(),
    {
        let count = match self.selection.notification {
            Some(index) => match self.manager.get_notification_at(index) {
                Some(notification) => Some(notification.actions.len()),
                None => None,
            },
            None => None,
        };
        match count {
            Some(action_count) => {
                self.selection.cycle_actions(action_count);
            },
            None => {},
        }
        let effects: Vec<Effect> = Vec::new();
        proof {
            assert(effect_views(effects@) =~= Seq::empty());
        }
        effects
    }

    /// Invoke action by number key (1-9).
    pub fn invoke_quick_action(&mut self, number: u8) -> (effects: Vec<Effect>)
        ensures
            final(self).outcome(effects@) == old(self)@.invoke_quick_action(number),
    {
        let mut effects: Vec<Effect> = Vec::new();
        proof {
            assert(effect_views(effects@) =~= Seq::empty());
        }
        match self.selection.notification {
            Some(index) => {
                match self.manager.get_notification_at(index) {
                    Some(notification) => {
                        match quick_action_index(number, notification.actions.len()) {
                            Some(action) => {
                                let action_key = notification.actions[action].key.clone();
                                effects.push(
                                    Effect::SendActionInvoked {
                                        notification_id: notification.id,
                                        action_key,
                                    },
                                );
                                proof {
                                    assert(effect_views(effects@) =~= seq![
                                        EffectView::SendActionInvoked {
                                            notification_id: notification.id,
                                            action_key: action_key@,
                                        },
                                    ]);
                                }
                            },
                            None => {},
                        }
                    },
                    None => {},
                }
            },
            None => {},
        }
        effects
    }

    /// Keyboard event.
    pub fn keyboard_event(&mut self, press: &KeyPress) -> (effects: Vec<Effect>)
        ensures
            final(self).outcome(effects@) == old(self)@.keyboard_event(*press),
    {
        match command_for_key(press, self.popup_open) {
            KeyCommand::Ignore => {
                let effects: Vec<Effect> = Vec::new();
                proof {
                    assert(effect_views(effects@) =~= Seq::empty());
                }
                effects
            },
            KeyCommand::ClosePopup => self.close_popup(),
            KeyCommand::ToggleDND => self.toggle_dnd(),
            KeyCommand::SetUrgencyLevel(level) => self.set_urgency_level(level),
            KeyCommand::NavigateUp => self.navigate(true),
            KeyCommand::NavigateDown => self.navigate(false),
            KeyCommand::ActivateSelected => self.activate_selected(),
            KeyCommand::DismissSelected => self.dismiss_selected(),
            KeyCommand::CycleActions => self.cycle_actions(),
            KeyCommand::InvokeQuickAction(number) => self.invoke_quick_action(number),
        }
    }

    /// The periodic tick, as of `now`.
    pub fn tick_at(&mut self, now: &Timestamp) -> (effects: Vec<Effect>)
        ensures
            final(self).outcome(effects@) == old(self)@.tick(*now),
    {
        let expired = self.manager.expired_notifications_at(now);
        let ghost before = self.manager@;
        let mut i: usize = 0;
        while i < expired.len()
            invariant
                i <= expired@.len(),
                self.manager@ == remove_all(before, expired@.subrange(0, i as int)),
                self@ == (AppletView { manager: self.manager@, ..old(self)@ }),
            decreases expired@.len() - i,
        {
            proof {
                assert(expired@.subrange(0, i as int + 1).drop_last() =~= expired@.subrange(
                    0,
                    i as int,
                ));
            }
            self.manager.remove_notification(expired[i]);
            i += 1;
        }
        proof {
            assert(expired@.subrange(0, i as int) =~= expired@);
        }
        self.validate_selection();
        let mut effects: Vec<Effect> = Vec::new();
        proof {
            assert(effect_views(effects@) =~= Seq::empty());
        }
        if self.config.history_enabled {
            self.manager.cleanup_history_at(
                self.config.max_history_items,
                self.config.history_retention_days,
                now,
            );
            effects.push(Effect::SaveHistory);
            proof {
                assert(effect_views(effects@) =~= seq![EffectView::SaveHistory]);
            }
        }
        effects
    }

    /// The periodic tick, as of the system clock's time.
    pub fn tick(&mut self) -> (effects: Vec<Effect>)
        ensures
            exists|now: Timestamp|
                now.clock_reading() && final(self).outcome(effects@) == #[trigger] old(self)@.tick(
                    now,
                ),
    {
        let now = Timestamp::now();
        self.tick_at(&now)
    }

    /// Finish the animations that the host has found complete.
    pub fn finish_animations(&mut self, completed: &Vec<u32>) -> (effects: Vec<Effect>)
        ensures
            final(self).outcome(effects@) == old(self)@.finish_animations(completed@),
    {
        let mut i: usize = 0;
        proof {
            assert(completed@.skip(0) =~= completed@);
        }
        while i < completed.len()
            invariant
                i <= completed@.len(),
                self@.finish_animations(completed@.skip(i as int)) == old(self)@.finish_animations(
                    completed@,
                ),
            decreases completed@.len() - i,
        {
            let id = completed[i];
            let ghost current = self@;
            proof {
                assert(completed@.skip(i as int)[0] == id);
                assert(completed@.skip(i as int).drop_first() =~= completed@.skip(i as int + 1));
            }
            match remove_animation(&mut self.notification_animations, id) {
                Some(kind) => {
                    match kind {
                        NotificationAnimationType::Dismissing => {
                            return self.complete_notification_dismissal(id);
                        },
                        _ => {},
                    }
                },
                None => {
                    proof {
                        lemma_without_absent(current.animations, id);
                        assert(self@ == current);
                    }
                },
            }
            i += 1;
        }
        let effects: Vec<Effect> = Vec::new();
        proof {
            assert(effect_views(effects@) =~= Seq::empty());
            assert(completed@.skip(i as int) =~= Seq::empty());
        }
        effects
    }

    /// Animation frame update: the progress indicators whose time is up,
    /// by the clock, leave; the animations that the host has found
    /// complete are finished.
    pub fn animation_frame(&mut self, completed: &Vec<u32>) -> (effects: Vec<Effect>)
        ensures
            exists|expired: Seq<bool>|
                expiry_flags(old(self)@.progress, expired) && final(self).outcome(effects@)
                    == #[trigger] old(self)@.animation_frame(completed@, expired),
    {
        let ghost before = self.progress_indicators@;
        let ghost mut flags: Seq<bool> = Seq::empty();
        let mut rest: Vec<ProgressIndicator> = Vec::new();
        core::mem::swap(&mut rest, &mut self.progress_indicators);
        let mut reversed: Vec<ProgressIndicator> = Vec::new();
        while rest.len() > 0
            invariant
                rest@.len() + reversed@.len() == before.len(),
                forall|k: int| 0 <= k < rest@.len() ==> rest@[k] == before[k],
                forall|k: int|
                    0 <= k < reversed@.len() ==> reversed@[k] == before[before.len() - 1 - k],
            decreases rest.len(),
        {
            let indicator = rest.pop().unwrap();
            reversed.push(indicator);
        }
        let mut kept: Vec<ProgressIndicator> = Vec::new();
        proof {
            assert(before.subrange(0, 0) =~= Seq::empty());
        }
        while reversed.len() > 0
            invariant
                flags.len() + reversed@.len() == before.len(),
                forall|k: int|
                    0 <= k < reversed@.len() ==> reversed@[k] == before[before.len() - 1 - k],
                expiry_flags(before.subrange(0, flags.len() as int), flags),
                kept@ == unflagged(before.subrange(0, flags.len() as int), flags),
            decreases reversed.len(),
        {
            let indicator = reversed.pop().unwrap();
            let expired = indicator.is_expired();
            proof {
                let seen = flags.len() as int;
                assert(indicator == before[seen]);
                let next = before.subrange(0, seen + 1);
                assert(next.drop_last() =~= before.subrange(0, seen));
                assert(flags.push(expired).drop_last() =~= flags);
                flags = flags.push(expired);
            }
            if !expired {
                kept.push(indicator);
            }
        }
        proof {
            assert(before.subrange(0, flags.len() as int) =~= before);
        }
        self.progress_indicators = kept;
        let ghost swept = self@;
        let effects = self.finish_animations(completed);
        proof {
            assert(swept == (AppletView { progress: unflagged(before, flags), ..old(self)@ }));
            assert(self.outcome(effects@) == old(self)@.animation_frame(completed@, flags));
        }
        effects
    }

    /// Update prefers-reduced-motion accessibility setting.
    pub fn update_prefers_reduced_motion(&mut self, prefers: bool) -> (effects: Vec<Effect>)
        ensures
            final(self).outcome(effects@) == (AppletView {
                prefers_reduced_motion: prefers,
                ..old(self)@
            }).quiet(),
    {
        self.prefers_reduced_motion = prefers;
        let effects: Vec<Effect> = Vec::new();
        proof {
            assert(effect_views(effects@) =~= Seq::empty());
        }
        effects
    }

    /// Handle a message: change the state and return what the host is to
    /// do.
    #[verifier::rlimit(60)]
    pub fn update(&mut self, message: AppletMessage) -> (effects: Vec<Effect>)
        ensures
            exists|chance: Chance|
                chance.now.clock_reading() && (message is AnimationFrame ==> expiry_flags(
                    old(self)@.progress,
                    chance.expired,
                )) && final(self).outcome(effects@) == #[trigger] old(self)@.step(
                    message,
                    chance,
                ),
    {
        let ghost mut chance = Chance {
            now: Timestamp { secs: 0, nanos: 0 },
            started: vstd::pervasive::arbitrary(),
            expired: Seq::empty(),
        };
        let effects = match message {
            AppletMessage::TogglePopup => self.toggle_popup(),
            AppletMessage::ClosePopup => self.close_popup(),
            AppletMessage::NotificationReceived(notification) => {
                let effects = self.notification_received(notification);
                proof {
                    let started = choose|started: std::time::Instant|
                        self.outcome(effects@) == old(self)@.notification_received(
                            notification@,
                            started,
                        );
                    chance = Chance { started, ..chance };
                }
                effects
            },
            AppletMessage::DismissNotification(id) => self.dismiss_notification(id),
            AppletMessage::UpdateConfig(config) => self.update_config(config),
            AppletMessage::OpenUrl(url) => {
                let effects = vec![Effect::OpenUrl(url)];
                proof {
                    assert(effect_views(effects@) =~= seq![EffectView::OpenUrl(url@)]);
                }
                effects
            },
            AppletMessage::InvokeAction { notification_id, action_key } => {
                let effects = vec![Effect::SendActionInvoked { notification_id, action_key }];
                proof {
                    assert(effect_views(effects@) =~= seq![
                        EffectView::SendActionInvoked { notification_id, action_key: action_key@ },
                    ]);
                }
                effects
            },
            AppletMessage::ToggleDND => self.toggle_dnd(),
            AppletMessage::SetUrgencyLevel(level) => self.set_urgency_level(level),
            AppletMessage::ToggleAppFilter(app_name, enabled) => self.toggle_app_filter(
                app_name,
                enabled,
            ),
            AppletMessage::SetPositionMode(mode) => {
                let position = PopupPosition { mode, ..self.config.popup_position };
                self.set_popup_position(position)
            },
            AppletMessage::SetPanelAnchor(anchor) => {
                let position = PopupPosition { anchor, ..self.config.popup_position };
                self.set_popup_position(position)
            },
            AppletMessage::SetOffsetX(offset_x) => {
                let position = PopupPosition { offset_x, ..self.config.popup_position };
                self.set_popup_position(position)
            },
            AppletMessage::SetOffsetY(offset_y) => {
                let position = PopupPosition { offset_y, ..self.config.popup_position };
                self.set_popup_position(position)
            },
            AppletMessage::ToggleSnapToEdge => {
                let position = PopupPosition {
                    snap_to_edge: !self.config.popup_position.snap_to_edge,
                    ..self.config.popup_position
                };
                self.set_popup_position(position)
            },
            AppletMessage::SetSnapThreshold(snap_threshold) => {
                let position = PopupPosition { snap_threshold, ..self.config.popup_position };
                self.set_popup_position(position)
            },
            AppletMessage::PreviewPosition => self.preview_position(),
            AppletMessage::NavigateUp => self.navigate(true),
            AppletMessage::NavigateDown => self.navigate(false),
            AppletMessage::ActivateSelected => self.activate_selected(),
            AppletMessage::DismissSelected => self.dismiss_selected(),
            AppletMessage::ClearSelection => self.clear_selection(),
            AppletMessage::CycleActions => self.cycle_actions(),
            AppletMessage::InvokeQuickAction(number) => self.invoke_quick_action(number),
            AppletMessage::AnimationFrame(completed) => {
                let effects = self.animation_frame(&completed);
                proof {
                    let expired = choose|expired: Seq<bool>|
                        expiry_flags(old(self)@.progress, expired) && self.outcome(effects@)
                            == old(self)@.animation_frame(completed@, expired);
                    chance = Chance { expired, ..chance };
                }
                effects
            },
            AppletMessage::StartAppearAnimation(id) => self.start_appear_animation(id),
            AppletMessage::StartDismissAnimation(id) => self.start_dismiss_animation(id),
            AppletMessage::CompleteNotificationDismissal(id) => {
                self.complete_notification_dismissal(id)
            },
            AppletMessage::UpdatePrefersReducedMotion(prefers) => {
                self.update_prefers_reduced_motion(prefers)
            },
            AppletMessage::Tick => {
                let effects = self.tick();
                proof {
                    let now = choose|now: Timestamp|
                        now.clock_reading() && self.outcome(effects@) == old(self)@.tick(now);
                    chance = Chance { now, ..chance };
                }
                effects
            },
            AppletMessage::KeyboardEvent(press) => self.keyboard_event(&press),
        };
        proof {
            assert(self.outcome(effects@) == old(self)@.step(message, chance));
        }
        effects
    }
}

/// Taking the animations of a notification out changes nothing where none
/// runs for it.
pub proof fn lemma_without_absent(animations: Seq<AnimationEntry>, id: u32)
    requires
        animation_kind(animations, id) is None,
    ensures
        without_animation(animations, id) == animations,
    decreases animations.len(),
{
    reveal(Seq::filter);
    if animations.len() > 0 {
        lemma_kind_none(animations, id);
        assert(other_animation(id)(animations.last()));
        lemma_without_absent(animations.drop_last(), id);
        assert(animations.drop_last().push(animations.last()) =~= animations);
    }
}

/// Where no animation runs for a notification, none of the entries is
/// for it.
pub proof fn lemma_kind_none(animations: Seq<AnimationEntry>, id: u32)
    requires
        animation_kind(animations, id) is None,
    ensures
        forall|i: int| 0 <= i < animations.len() ==> (#[trigger] animations[i]).notification_id != id,
        animations.len() > 0 ==> animation_kind(animations.drop_last(), id) is None,
    decreases animations.len(),
{
    if animations.len() > 0 {
        lemma_kind_none(animations.drop_first(), id);
        assert forall|i: int| 0 <= i < animations.len() implies (
        #[trigger] animations[i]).notification_id != id by {
            if i > 0 {
                assert(animations.drop_first()[i - 1] == animations[i]);
            }
        }
        lemma_none_from_entries(animations.drop_last(), id);
    }
}

/// Where none of the entries is for a notification, no animation runs
/// for it.
pub proof fn lemma_none_from_entries(animations: Seq<AnimationEntry>, id: u32)
    requires
        forall|i: int| 0 <= i < animations.len() ==> (#[trigger] animations[i]).notification_id != id,
    ensures
        animation_kind(animations, id) is None,
    decreases animations.len(),
{
    if animations.len() > 0 {
        assert(animations[0].notification_id != id);
        assert forall|i: int| 0 <= i < animations.drop_first().len() implies (
        #[trigger] animations.drop_first()[i]).notification_id != id by {
            assert(animations.drop_first()[i] == animations[i + 1]);
        }
        lemma_none_from_entries(animations.drop_first(), id);
    }
}

} // verus!
