//! The notification data model of the desktop notification protocol.

use crate::string_map::StringMap;
use crate::time::Timestamp;
use vstd::prelude::*;

verus! {

/// Priority tier of a notification.
#[derive(Debug, Clone, Copy, PartialEq, Eq, PartialOrd, Ord, Hash, Structural)]
pub enum Urgency {
    /// Background information.
    Low,
    /// Standard notification; the default.
    Normal,
    /// Requires immediate attention.
    Critical,
}

impl Urgency {
    /// The protocol's number for the tier: 0, 1 or 2.
    pub open spec fn level(self) -> int {
        match self {
            Urgency::Low => 0,
            Urgency::Normal => 1,
            Urgency::Critical => 2,
        }
    }

    /// The tier that the protocol numbers `value`, if there is one.
    pub open spec fn of_level(value: int) -> Option<Urgency> {
        if value == 0 {
            Some(Urgency::Low)
        } else if value == 1 {
            Some(Urgency::Normal)
        } else if value == 2 {
            Some(Urgency::Critical)
        } else {
            None
        }
    }

    /// Parse urgency from a u8 value.
    pub fn from_u8(value: u8) -> (r: Option<Urgency>)
        ensures
            r == Urgency::of_level(value as int),
    {
        match value {
            0 => Some(Urgency::Low),
            1 => Some(Urgency::Normal),
            2 => Some(Urgency::Critical),
            _ => None,
        }
    }

    /// Convert urgency to u8 value.
    pub fn to_u8(self) -> (r: u8)
        ensures
            r as int == self.level(),
    {
        match self {
            Urgency::Low => 0,
            Urgency::Normal => 1,
            Urgency::Critical => 2,
        }
    }
}

impl Default for Urgency {
    fn default() -> (r: Urgency)
        ensures
            r == Urgency::Normal,
    {
        Urgency::Normal
    }
}

/// A button that a notification offers. When it is pressed, its key goes
/// back to the sender.
#[derive(Debug, PartialEq, Eq)]
pub struct NotificationAction {
    /// Action identifier (sent back when invoked).
    pub key: String,
    /// User-visible label for the action button.
    pub label: String,
}

/// An action as a pair of character sequences.
pub struct ActionView {
    pub key: Seq<char>,
    pub label: Seq<char>,
}

impl View for NotificationAction {
    type V = ActionView;

    open spec fn view(&self) -> ActionView {
        ActionView { key: self.key@, label: self.label@ }
    }
}

impl NotificationAction {
    /// Create a new notification action.
    pub fn new(key: &str, label: &str) -> (r: NotificationAction)
        ensures
            r@ == (ActionView { key: key@, label: label@ }),
    {
        NotificationAction { key: key.to_owned(), label: label.to_owned() }
    }
}

impl Clone for NotificationAction {
    fn clone(&self) -> (r: NotificationAction)
        ensures
            r@ == self@,
    {
        NotificationAction { key: self.key.clone(), label: self.label.clone() }
    }
}

/// The views of a run of actions.
pub open spec fn action_views(actions: Seq<NotificationAction>) -> Seq<ActionView> {
    actions.map_values(|a: NotificationAction| a@)
}

/// Raw pixel data of a notification icon.
#[derive(Debug)]
pub struct ImageData {
    pub width: i32,
    pub height: i32,
    pub rowstride: i32,
    pub has_alpha: bool,
    pub bits_per_sample: i32,
    pub channels: i32,
    pub data: Vec<u8>,
}

/// Image data with its bytes as a sequence.
pub struct ImageDataView {
    pub width: i32,
    pub height: i32,
    pub rowstride: i32,
    pub has_alpha: bool,
    pub bits_per_sample: i32,
    pub channels: i32,
    pub data: Seq<u8>,
}

impl View for ImageData {
    type V = ImageDataView;

    open spec fn view(&self) -> ImageDataView {
        ImageDataView {
            width: self.width,
            height: self.height,
            rowstride: self.rowstride,
            has_alpha: self.has_alpha,
            bits_per_sample: self.bits_per_sample,
            channels: self.channels,
            data: self.data@,
        }
    }
}

impl Clone for ImageData {
    fn clone(&self) -> (r: ImageData)
        ensures
            r@ == self@,
    {
        let data = self.data.clone();
        proof {
            assert(data@ =~= self.data@);
        }
        ImageData {
            width: self.width,
            height: self.height,
            rowstride: self.rowstride,
            has_alpha: self.has_alpha,
            bits_per_sample: self.bits_per_sample,
            channels: self.channels,
            data,
        }
    }
}

/// The hints of the protocol that this library reads, each with the value
/// that stands where the sender gave none.
#[derive(Debug)]
pub struct NotificationHints {
    /// Urgency level (low, normal, critical).
    pub urgency: Urgency,
    /// Category of the notification (e.g., "email.arrived").
    pub category: Option<String>,
    /// Desktop entry name (e.g., "firefox").
    pub desktop_entry: Option<String>,
    /// Whether the notification is kept out of the history.
    pub transient: bool,
    /// Whether the notification is exempt from automatic removal.
    pub resident: bool,
    /// Window position hint, horizontal.
    pub x: Option<i32>,
    /// Window position hint, vertical.
    pub y: Option<i32>,
    /// Sound file to play.
    pub sound_file: Option<String>,
    /// Sound name from the sound naming convention.
    pub sound_name: Option<String>,
    /// Whether to suppress sound.
    pub suppress_sound: bool,
    /// Whether action keys name icons.
    pub action_icons: bool,
    /// Image data (icon as raw pixel data).
    pub image_data: Option<ImageData>,
    /// Image path (icon as file path).
    pub image_path: Option<String>,
}

/// The hints over sequences.
pub struct HintsView {
    pub urgency: Urgency,
    pub category: Option<Seq<char>>,
    pub desktop_entry: Option<Seq<char>>,
    pub transient: bool,
    pub resident: bool,
    pub x: Option<i32>,
    pub y: Option<i32>,
    pub sound_file: Option<Seq<char>>,
    pub sound_name: Option<Seq<char>>,
    pub suppress_sound: bool,
    pub action_icons: bool,
    pub image_data: Option<ImageDataView>,
    pub image_path: Option<Seq<char>>,
}

/// The characters of an optional string.
pub open spec fn text_view(text: Option<String>) -> Option<Seq<char>> {
    match text {
        Some(s) => Some(s@),
        None => None,
    }
}

/// The view of optional image data.
pub open spec fn image_view(image: Option<ImageData>) -> Option<ImageDataView> {
    match image {
        Some(i) => Some(i@),
        None => None,
    }
}

impl View for NotificationHints {
    type V = HintsView;

    open spec fn view(&self) -> HintsView {
        HintsView {
            urgency: self.urgency,
            category: text_view(self.category),
            desktop_entry: text_view(self.desktop_entry),
            transient: self.transient,
            resident: self.resident,
            x: self.x,
            y: self.y,
            sound_file: text_view(self.sound_file),
            sound_name: text_view(self.sound_name),
            suppress_sound: self.suppress_sound,
            action_icons: self.action_icons,
            image_data: image_view(self.image_data),
            image_path: text_view(self.image_path),
        }
    }
}

/// The hints of a notification that gave none.
pub open spec fn default_hints() -> HintsView {
    HintsView {
        urgency: Urgency::Normal,
        category: None,
        desktop_entry: None,
        transient: false,
        resident: false,
        x: None,
        y: None,
        sound_file: None,
        sound_name: None,
        suppress_sound: false,
        action_icons: false,
        image_data: None,
        image_path: None,
    }
}

impl Default for NotificationHints {
    fn default() -> (r: NotificationHints)
        ensures
            r@ == default_hints(),
    {
        NotificationHints {
            urgency: Urgency::Normal,
            category: None,
            desktop_entry: None,
            transient: false,
            resident: false,
            x: None,
            y: None,
            sound_file: None,
            sound_name: None,
            suppress_sound: false,
            action_icons: false,
            image_data: None,
            image_path: None,
        }
    }
}

fn clone_text(text: &Option<String>) -> (r: Option<String>)
    ensures
        text_view(r) == text_view(*text),
{
    match text {
        Some(s) => Some(s.clone()),
        None => None,
    }
}

fn clone_image(image: &Option<ImageData>) -> (r: Option<ImageData>)
    ensures
        image_view(r) == image_view(*image),
{
    match image {
        Some(i) => Some(i.clone()),
        None => None,
    }
}

impl Clone for NotificationHints {
    fn clone(&self) -> (r: NotificationHints)
        ensures
            r@ == self@,
    {
        NotificationHints {
            urgency: self.urgency,
            category: clone_text(&self.category),
            desktop_entry: clone_text(&self.desktop_entry),
            transient: self.transient,
            resident: self.resident,
            x: self.x,
            y: self.y,
            sound_file: clone_text(&self.sound_file),
            sound_name: clone_text(&self.sound_name),
            suppress_sound: self.suppress_sound,
            action_icons: self.action_icons,
            image_data: clone_image(&self.image_data),
            image_path: clone_text(&self.image_path),
        }
    }
}

/// `zvariant`'s owned value of any kind. Verified code carries it and does
/// not look into it.
#[verifier::external_type_specification]
#[verifier::external_body]
pub struct ExOwnedValue(zbus::zvariant::OwnedValue);

/// The value of one hint as the sender gave it. The kinds that the hint
/// rules read are held as plain values; any other is carried unread.
#[derive(Debug)]
pub enum HintValue {
    /// An unsigned byte.
    Byte(u8),
    /// A boolean.
    Bool(bool),
    /// A signed 32-bit integer.
    Int32(i32),
    /// A string.
    Text(String),
    /// A value of another kind.
    Other(zbus::zvariant::OwnedValue),
}

/// A hint value by what the hint rules read of it: a value of another
/// kind is of no account.
pub enum HintView {
    Byte(u8),
    Bool(bool),
    Int32(i32),
    Text(Seq<char>),
    Other,
}

impl View for HintValue {
    type V = HintView;

    open spec fn view(&self) -> HintView {
        match self {
            HintValue::Byte(b) => HintView::Byte(*b),
            HintValue::Bool(b) => HintView::Bool(*b),
            HintValue::Int32(n) => HintView::Int32(*n),
            HintValue::Text(s) => HintView::Text(s@),
            HintValue::Other(_) => HintView::Other,
        }
    }
}

/// The hints of one notification as they came, keyed by name.
pub type RawHints = StringMap<HintValue>;

/// The view of a hint value, as a function.
pub open spec fn viewing() -> spec_fn(HintValue) -> HintView {
    |value: HintValue| value@
}

/// Raw hints by what the hint rules read of them.
pub open spec fn hint_views(hints: Map<Seq<char>, HintValue>) -> Map<Seq<char>, HintView> {
    hints.map_values(viewing())
}

/// The byte under `key`, where the hint is there and is a byte.
pub open spec fn hint_byte(hints: Map<Seq<char>, HintView>, key: Seq<char>) -> Option<u8> {
    if hints.contains_key(key) {
        match hints[key] {
            HintView::Byte(b) => Some(b),
            _ => None,
        }
    } else {
        None
    }
}

/// The boolean under `key`; `false` where the hint is missing or of
/// another kind.
pub open spec fn hint_flag(hints: Map<Seq<char>, HintView>, key: Seq<char>) -> bool {
    if hints.contains_key(key) {
        match hints[key] {
            HintView::Bool(b) => b,
            _ => false,
        }
    } else {
        false
    }
}

/// The integer under `key`, where the hint is there and is a 32-bit
/// integer.
pub open spec fn hint_int(hints: Map<Seq<char>, HintView>, key: Seq<char>) -> Option<i32> {
    if hints.contains_key(key) {
        match hints[key] {
            HintView::Int32(n) => Some(n),
            _ => None,
        }
    } else {
        None
    }
}

/// The string under `key`, where the hint is there and is a string.
pub open spec fn hint_text(hints: Map<Seq<char>, HintView>, key: Seq<char>) -> Option<
    Seq<char>,
> {
    if hints.contains_key(key) {
        match hints[key] {
            HintView::Text(s) => Some(s),
            _ => None,
        }
    } else {
        None
    }
}

/// The urgency that a set of hints asks for: the tier that the byte under
/// "urgency" numbers, and `Normal` where there is no such byte or it
/// numbers no tier.
pub open spec fn hint_urgency(hints: Map<Seq<char>, HintView>) -> Urgency {
    match hint_byte(hints, "urgency"@) {
        Some(b) => match Urgency::of_level(b as int) {
            Some(u) => u,
            None => Urgency::Normal,
        },
        None => Urgency::Normal,
    }
}

/// The parsed hints that a set of raw hints stands for.
pub open spec fn hints_of(hints: Map<Seq<char>, HintView>) -> HintsView {
    HintsView {
        urgency: hint_urgency(hints),
        category: hint_text(hints, "category"@),
        desktop_entry: hint_text(hints, "desktop-entry"@),
        transient: hint_flag(hints, "transient"@),
        resident: hint_flag(hints, "resident"@),
        x: hint_int(hints, "x"@),
        y: hint_int(hints, "y"@),
        sound_file: hint_text(hints, "sound-file"@),
        sound_name: hint_text(hints, "sound-name"@),
        suppress_sound: hint_flag(hints, "suppress-sound"@),
        action_icons: hint_flag(hints, "action-icons"@),
        image_data: None,
        image_path: match hint_text(hints, "image-path"@) {
            Some(s) => Some(s),
            None => hint_text(hints, "image_path"@),
        },
    }
}

/// Parse urgency from hints with fallback to Normal.
fn parse_urgency(hints: &RawHints) -> (r: Urgency)
    ensures
        r == hint_urgency(hint_views(hints@)),
{
    match hints.get("urgency") {
        Some(HintValue::Byte(b)) => match Urgency::from_u8(*b) {
            Some(u) => u,
            None => Urgency::Normal,
        },
        _ => Urgency::Normal,
    }
}

/// Parse string value from hints.
fn parse_string(hints: &RawHints, key: &str) -> (r: Option<String>)
    ensures
        text_view(r) == hint_text(hint_views(hints@), key@),
{
    match hints.get(key) {
        Some(HintValue::Text(s)) => Some(s.clone()),
        _ => None,
    }
}

/// Parse boolean value from hints.
fn parse_bool(hints: &RawHints, key: &str) -> (r: bool)
    ensures
        r == hint_flag(hint_views(hints@), key@),
{
    match hints.get(key) {
        Some(HintValue::Bool(b)) => *b,
        _ => false,
    }
}

/// Parse i32 value from hints.
fn parse_i32(hints: &RawHints, key: &str) -> (r: Option<i32>)
    ensures
        r == hint_int(hint_views(hints@), key@),
{
    match hints.get(key) {
        Some(HintValue::Int32(n)) => Some(*n),
        _ => None,
    }
}

/// Parse image data from hints. The pixel structure is not decoded: no
/// image data is taken from the hints, under whichever key it came.
fn parse_image_data(hints: &RawHints) -> (r: Option<ImageData>)
    ensures
        r is None,
{
    None
}

/// Parse notification hints from the raw hints of a signal.
///
/// Extracts the standard hints; a hint that is missing or of the wrong
/// kind gives its default.
pub fn parse_hints(hints: &RawHints) -> (r: NotificationHints)
    ensures
        r@ == hints_of(hint_views(hints@)),
{
    let image_path = match parse_string(hints, "image-path") {
        Some(s) => Some(s),
        None => parse_string(hints, "image_path"),
    };
    NotificationHints {
        urgency: parse_urgency(hints),
        category: parse_string(hints, "category"),
        desktop_entry: parse_string(hints, "desktop-entry"),
        transient: parse_bool(hints, "transient"),
        resident: parse_bool(hints, "resident"),
        x: parse_i32(hints, "x"),
        y: parse_i32(hints, "y"),
        sound_file: parse_string(hints, "sound-file"),
        sound_name: parse_string(hints, "sound-name"),
        suppress_sound: parse_bool(hints, "suppress-sound"),
        action_icons: parse_bool(hints, "action-icons"),
        image_data: parse_image_data(hints),
        image_path,
    }
}

/// The actions that a flat run of strings stands for: each two strings in
/// turn are a key and its label, and a last string without a partner is
/// left out.
pub open spec fn action_pairs(flat: Seq<String>) -> Seq<ActionView> {
    Seq::new(
        (flat.len() / 2) as nat,
        |i: int| ActionView { key: flat[2 * i]@, label: flat[2 * i + 1]@ },
    )
}

/// Parse notification actions from the flat array of the protocol:
/// `[key1, label1, key2, label2, ...]`.
pub fn parse_actions(actions: &[String]) -> (r: Vec<NotificationAction>)
    ensures
        action_views(r@) == action_pairs(actions@),
{
    let mut parsed: Vec<NotificationAction> = Vec::new();
    let mut i: usize = 0;
    while i + 1 < actions.len()
        invariant
            i % 2 == 0,
            i <= actions.len(),
            parsed.len() == i / 2,
            forall|k: int|
                0 <= k < parsed.len() ==> (#[trigger] parsed[k])@ == (ActionView {
                    key: actions[2 * k]@,
                    label: actions[2 * k + 1]@,
                }),
        decreases actions.len() - i,
    {
        parsed.push(NotificationAction::new(actions[i].as_str(), actions[i + 1].as_str()));
        i += 2;
    }
    proof {
        assert(action_views(parsed@) =~= action_pairs(actions@));
    }
    parsed
}

/// A notification received from the bus.
#[derive(Debug)]
pub struct Notification {
    /// Notification id; 0 until the manager has assigned one.
    pub id: u32,
    /// Application name that sent the notification.
    pub app_name: String,
    /// Id of the notification to replace (0 if new).
    pub replaces_id: u32,
    /// Application icon name or path.
    pub app_icon: String,
    /// Summary text (title), a single line.
    pub summary: String,
    /// Body text; may span lines and hold basic markup.
    pub body: String,
    /// Actions available for this notification.
    pub actions: Vec<NotificationAction>,
    /// Parsed notification hints.
    pub hints: NotificationHints,
    /// The hints as they came, unread kinds included. They are no part of
    /// what a notification is compared or stored by, and a clone has none.
    pub raw_hints: RawHints,
    /// Expiration timeout in milliseconds: -1 never expires, 0 asks for
    /// the default, a positive number is the timeout itself.
    pub expire_timeout: i32,
    /// When the notification was received.
    pub timestamp: Timestamp,
}

/// What a notification is, apart from the raw hints it may carry.
pub struct NotificationView {
    pub id: u32,
    pub app_name: Seq<char>,
    pub replaces_id: u32,
    pub app_icon: Seq<char>,
    pub summary: Seq<char>,
    pub body: Seq<char>,
    pub actions: Seq<ActionView>,
    pub hints: HintsView,
    pub expire_timeout: i32,
    pub timestamp: Timestamp,
}

impl View for Notification {
    type V = NotificationView;

    open spec fn view(&self) -> NotificationView {
        NotificationView {
            id: self.id,
            app_name: self.app_name@,
            replaces_id: self.replaces_id,
            app_icon: self.app_icon@,
            summary: self.summary@,
            body: self.body@,
            actions: action_views(self.actions@),
            hints: self.hints@,
            expire_timeout: self.expire_timeout,
            timestamp: self.timestamp,
        }
    }
}

impl Clone for Notification {
    /// A copy of the notification without its raw hints.
    fn clone(&self) -> (r: Notification)
        ensures
            r@ == self@,
            r.raw_hints.entries().len() == 0,
    {
        let actions = self.actions.clone();
        proof {
            assert(action_views(actions@) =~= action_views(self.actions@));
        }
        Notification {
            id: self.id,
            app_name: self.app_name.clone(),
            replaces_id: self.replaces_id,
            app_icon: self.app_icon.clone(),
            summary: self.summary.clone(),
            body: self.body.clone(),
            actions,
            hints: self.hints.clone(),
            raw_hints: StringMap::new(),
            expire_timeout: self.expire_timeout,
            timestamp: self.timestamp,
        }
    }
}

impl Notification {
    /// Get the urgency level of this notification.
    pub fn urgency(&self) -> (r: Urgency)
        ensures
            r == self@.hints.urgency,
    {
        self.hints.urgency
    }

    /// Check if this notification is transient (kept out of the history).
    pub fn is_transient(&self) -> (r: bool)
        ensures
            r == self@.hints.transient,
    {
        self.hints.transient
    }

    /// Check if this notification is resident (never removed by timeout).
    pub fn is_resident(&self) -> (r: bool)
        ensures
            r == self@.hints.resident,
    {
        self.hints.resident
    }

    /// Get the category of this notification.
    pub fn category(&self) -> (r: Option<&str>)
        ensures
            match r {
                Some(s) => self@.hints.category == Some(s@),
                None => self@.hints.category is None,
            },
    {
        match &self.hints.category {
            Some(s) => Some(s.as_str()),
            None => None,
        }
    }

    /// Get the desktop entry name for this notification.
    pub fn desktop_entry(&self) -> (r: Option<&str>)
        ensures
            match r {
                Some(s) => self@.hints.desktop_entry == Some(s@),
                None => self@.hints.desktop_entry is None,
            },
    {
        match &self.hints.desktop_entry {
            Some(s) => Some(s.as_str()),
            None => None,
        }
    }

    /// Check if this notification has actions.
    pub fn has_actions(&self) -> (r: bool)
        ensures
            r == (self@.actions.len() > 0),
    {
        self.actions.len() > 0
    }
}

} // verus!
