//! The applet's configuration: its values, their valid ranges, and how an
//! invalid configuration is brought back into them.

pub mod helper;

pub use helper::ConfigHelper;

use crate::string_map::{has_key, map_of, with_entry, without_key, StringMap};
use vstd::prelude::*;
use vstd::std_specs::cmp::PartialEqSpecImpl;
use vstd::string::{StrSliceExecFns, StringSliceAdditionalSpecFns};
use vstd::utf8::encode_utf8;

verus! {

/// Configuration version for migration support.
pub const CONFIG_VERSION: u64 = 1;

/// The most per-application filters that a valid configuration holds.
pub const MAX_APP_FILTERS: usize = 1000;

/// The longest name, in bytes, that a valid per-application filter has,
/// and the number of characters that a longer name is cut to.
pub const MAX_APP_NAME_LENGTH: usize = 256;

/// Popup positioning mode.
#[derive(Debug, Clone, Copy, PartialEq, Eq, Structural)]
pub enum PositionMode {
    /// Auto-position based on panel location.
    Auto,
    /// Panel-relative positioning with custom anchor and offsets.
    PanelRelative,
}

impl Default for PositionMode {
    fn default() -> (r: PositionMode)
        ensures
            r == PositionMode::Auto,
    {
        PositionMode::Auto
    }
}

/// Panel anchor point for popup positioning.
#[derive(Debug, Clone, Copy, PartialEq, Eq, Structural)]
pub enum PanelAnchor {
    /// Start of panel (left for horizontal, top for vertical).
    Start,
    /// Center of panel.
    Center,
    /// End of panel (right for horizontal, bottom for vertical).
    End,
    /// At applet icon location.
    AppletIcon,
}

impl Default for PanelAnchor {
    fn default() -> (r: PanelAnchor)
        ensures
            r == PanelAnchor::AppletIcon,
    {
        PanelAnchor::AppletIcon
    }
}

/// Popup positioning configuration.
#[derive(Debug, Clone, Copy, PartialEq, Eq, Structural)]
pub struct PopupPosition {
    /// Positioning mode.
    pub mode: PositionMode,
    /// Anchor point on panel (for panel-relative mode).
    pub anchor: PanelAnchor,
    /// X offset from anchor (pixels, panel-relative).
    pub offset_x: i32,
    /// Y offset from anchor (pixels, panel-relative).
    pub offset_y: i32,
    /// Snap to edge when within threshold.
    pub snap_to_edge: bool,
    /// Snap threshold distance (pixels).
    pub snap_threshold: u32,
}

/// The popup position of a fresh configuration.
pub open spec fn default_popup_position() -> PopupPosition {
    PopupPosition {
        mode: PositionMode::Auto,
        anchor: PanelAnchor::AppletIcon,
        offset_x: 0,
        offset_y: 0,
        snap_to_edge: true,
        snap_threshold: 20,
    }
}

impl Default for PopupPosition {
    fn default() -> (r: PopupPosition)
        ensures
            r == default_popup_position(),
    {
        PopupPosition {
            mode: PositionMode::Auto,
            anchor: PanelAnchor::AppletIcon,
            offset_x: 0,
            offset_y: 0,
            snap_to_edge: true,
            snap_threshold: default_snap_threshold(),
        }
    }
}

/// Animation configuration.
#[derive(Debug, Clone, Copy, PartialEq, Eq, Structural)]
pub struct AnimationConfig {
    /// Enable animations globally.
    pub enabled: bool,
    /// Enable notification appearance animations.
    pub notification_appear: bool,
    /// Enable notification dismissal animations.
    pub notification_dismiss: bool,
    /// Enable popup open/close animations.
    pub popup_transitions: bool,
    /// Enable hover effects on notification cards.
    pub hover_effects: bool,
    /// Show progress indicators for timed notifications.
    pub show_progress: bool,
    /// Animation speed in thousandths of the normal speed: 500 is half
    /// speed, 2000 double speed. Valid from 100 to 3000.
    pub speed_multiplier: u32,
    /// Respect system accessibility settings (prefers-reduced-motion).
    pub respect_accessibility: bool,
}

/// The animation settings of a fresh configuration.
pub open spec fn default_animations() -> AnimationConfig {
    AnimationConfig {
        enabled: true,
        notification_appear: true,
        notification_dismiss: true,
        popup_transitions: true,
        hover_effects: true,
        show_progress: true,
        speed_multiplier: 1000,
        respect_accessibility: true,
    }
}

impl Default for AnimationConfig {
    fn default() -> (r: AnimationConfig)
        ensures
            r == default_animations(),
    {
        AnimationConfig {
            enabled: true,
            notification_appear: true,
            notification_dismiss: true,
            popup_transitions: true,
            hover_effects: true,
            show_progress: true,
            speed_multiplier: default_animation_speed(),
            respect_accessibility: true,
        }
    }
}

/// Applet configuration.
#[derive(Debug, Clone)]
pub struct AppletConfig {
    /// Configuration version for migration.
    pub version: u64,
    /// Maximum number of visible notifications in popup.
    pub max_visible_notifications: usize,
    /// Show notification timestamps.
    pub show_timestamp: bool,
    /// Show application icons.
    pub show_app_icon: bool,
    /// Popup window width (pixels).
    pub popup_width: u32,
    /// Popup window height (pixels).
    pub popup_height: u32,
    /// Popup positioning configuration.
    pub popup_position: PopupPosition,
    /// Do Not Disturb mode enabled.
    pub do_not_disturb: bool,
    /// Default notification timeout (milliseconds, None = use the
    /// notification's timeout).
    pub default_timeout: Option<u32>,
    /// Play sound on notification (if supported).
    pub play_sound: bool,
    /// Show notification preview (brief on-screen display).
    pub show_preview: bool,
    /// Enable notification history.
    pub history_enabled: bool,
    /// Maximum number of items in history.
    pub max_history_items: usize,
    /// History retention period (days, None = indefinite).
    pub history_retention_days: Option<u32>,
    /// Per-application filters, by application name.
    pub app_filters: StringMap<bool>,
    /// Minimum urgency level to display (0=Low, 1=Normal, 2=Critical).
    pub min_urgency_level: u8,
    /// Animation configuration.
    pub animations: AnimationConfig,
}

/// `value` brought into the range from `low` to `high`.
pub open spec fn clamped(value: int, low: int, high: int) -> int {
    if value < low {
        low
    } else if value > high {
        high
    } else {
        value
    }
}

/// An optional value with what exceeds `high` brought down to it.
pub open spec fn capped(value: Option<u32>, high: u32) -> Option<u32> {
    match value {
        Some(v) => if v > high {
            Some(high)
        } else {
            Some(v)
        },
        None => None,
    }
}

/// Whether a name is longer than a filter's name may be: more than
/// `MAX_APP_NAME_LENGTH` bytes in UTF-8.
pub open spec fn name_too_long(name: Seq<char>) -> bool {
    encode_utf8(name).len() > MAX_APP_NAME_LENGTH
}

/// The test for an entry whose name is too long.
pub open spec fn entry_too_long() -> spec_fn((Seq<char>, bool)) -> bool {
    |e: (Seq<char>, bool)| name_too_long(e.0)
}

/// Whether the per-application filters are within their limits: no more
/// than `MAX_APP_FILTERS` of them, and no name too long.
pub open spec fn filters_within_limits(entries: Seq<(Seq<char>, bool)>) -> bool {
    &&& entries.len() <= MAX_APP_FILTERS
    &&& forall|i: int| 0 <= i < entries.len() ==> !name_too_long((#[trigger] entries[i]).0)
}

/// The first `count` characters of `text`, or all of it where it has no
/// more.
pub open spec fn first_chars(text: Seq<char>, count: nat) -> Seq<char> {
    if text.len() <= count {
        text
    } else {
        text.subrange(0, count as int)
    }
}

/// The filters with the entry under `name`, if there is one, moved to
/// the name cut to `MAX_APP_NAME_LENGTH` characters, where it replaces
/// what stood there.
pub open spec fn shorten_name(entries: Seq<(Seq<char>, bool)>, name: Seq<char>) -> Seq<
    (Seq<char>, bool),
> {
    if has_key(entries, name) {
        with_entry(
            without_key(entries, name),
            first_chars(name, MAX_APP_NAME_LENGTH as nat),
            map_of(entries)[name],
        )
    } else {
        entries
    }
}

/// The filters after each of `names` was shortened in turn.
pub open spec fn shorten_names(entries: Seq<(Seq<char>, bool)>, names: Seq<(Seq<char>, bool)>)
    -> Seq<(Seq<char>, bool)>
    decreases names.len(),
{
    if names.len() == 0 {
        entries
    } else {
        shorten_name(shorten_names(entries, names.drop_last()), names.last().0)
    }
}

/// The filters brought within their limits: the first `MAX_APP_FILTERS`
/// are kept, and of those every entry with too long a name is moved to
/// its shortened name, in the order of the entries.
pub open spec fn sanitized_filters(entries: Seq<(Seq<char>, bool)>) -> Seq<(Seq<char>, bool)> {
    let kept = if entries.len() > MAX_APP_FILTERS {
        entries.subrange(0, MAX_APP_FILTERS as int)
    } else {
        entries
    };
    shorten_names(kept, kept.filter(entry_too_long()))
}

/// A configuration with its filters as an association list.
pub struct ConfigView {
    pub version: u64,
    pub max_visible_notifications: usize,
    pub show_timestamp: bool,
    pub show_app_icon: bool,
    pub popup_width: u32,
    pub popup_height: u32,
    pub popup_position: PopupPosition,
    pub do_not_disturb: bool,
    pub default_timeout: Option<u32>,
    pub play_sound: bool,
    pub show_preview: bool,
    pub history_enabled: bool,
    pub max_history_items: usize,
    pub history_retention_days: Option<u32>,
    /// The per-application filters in the order of their first insertion.
    pub app_filters: Seq<(Seq<char>, bool)>,
    pub min_urgency_level: u8,
    pub animations: AnimationConfig,
}

impl View for AppletConfig {
    type V = ConfigView;

    open spec fn view(&self) -> ConfigView {
        ConfigView {
            version: self.version,
            max_visible_notifications: self.max_visible_notifications,
            show_timestamp: self.show_timestamp,
            show_app_icon: self.show_app_icon,
            popup_width: self.popup_width,
            popup_height: self.popup_height,
            popup_position: self.popup_position,
            do_not_disturb: self.do_not_disturb,
            default_timeout: self.default_timeout,
            play_sound: self.play_sound,
            show_preview: self.show_preview,
            history_enabled: self.history_enabled,
            max_history_items: self.max_history_items,
            history_retention_days: self.history_retention_days,
            app_filters: self.app_filters.entries(),
            min_urgency_level: self.min_urgency_level,
            animations: self.animations,
        }
    }
}

impl ConfigView {
    /// The configuration that a fresh installation starts with.
    pub open spec fn initial() -> ConfigView {
        ConfigView {
            version: CONFIG_VERSION,
            max_visible_notifications: 10,
            show_timestamp: true,
            show_app_icon: true,
            popup_width: 400,
            popup_height: 600,
            popup_position: default_popup_position(),
            do_not_disturb: false,
            default_timeout: None,
            play_sound: false,
            show_preview: true,
            history_enabled: true,
            max_history_items: 100,
            history_retention_days: None,
            app_filters: Seq::empty(),
            min_urgency_level: 0,
            animations: default_animations(),
        }
    }

    /// Whether all values are within their acceptable ranges.
    pub open spec fn is_valid(self) -> bool {
        &&& 1 <= self.max_visible_notifications <= 50
        &&& 200 <= self.popup_width <= 2000
        &&& 200 <= self.popup_height <= 2000
        &&& self.popup_width * self.popup_height >= 100_000
        &&& 10 <= self.max_history_items <= 1000
        &&& self.min_urgency_level <= 2
        &&& (self.default_timeout matches Some(timeout) ==> timeout <= 300_000)
        &&& (self.history_retention_days matches Some(days) ==> days <= 365)
        &&& filters_within_limits(self.app_filters)
        &&& -3000 <= self.popup_position.offset_x <= 3000
        &&& -3000 <= self.popup_position.offset_y <= 3000
        &&& 5 <= self.popup_position.snap_threshold <= 100
        &&& 100 <= self.animations.speed_multiplier <= 3000
    }

    /// The configuration with every value brought into its range.
    pub open spec fn sanitized(self) -> ConfigView {
        ConfigView {
            max_visible_notifications: clamped(self.max_visible_notifications as int, 1, 50) as usize,
            popup_width: clamped(self.popup_width as int, 200, 2000) as u32,
            popup_height: clamped(self.popup_height as int, 200, 2000) as u32,
            popup_position: PopupPosition {
                offset_x: clamped(self.popup_position.offset_x as int, -3000, 3000) as i32,
                offset_y: clamped(self.popup_position.offset_y as int, -3000, 3000) as i32,
                snap_threshold: clamped(self.popup_position.snap_threshold as int, 5, 100) as u32,
                ..self.popup_position
            },
            default_timeout: capped(self.default_timeout, 300_000),
            max_history_items: clamped(self.max_history_items as int, 10, 1000) as usize,
            history_retention_days: capped(self.history_retention_days, 365),
            app_filters: sanitized_filters(self.app_filters),
            min_urgency_level: clamped(self.min_urgency_level as int, 0, 2) as u8,
            animations: AnimationConfig {
                speed_multiplier: clamped(self.animations.speed_multiplier as int, 100, 3000) as u32,
                ..self.animations
            },
            ..self
        }
    }

    /// The configuration after migration from the version `from_version`:
    /// marked as of `CONFIG_VERSION` where it comes from an older one.
    pub open spec fn migrated(self, from_version: u64) -> ConfigView {
        if from_version < CONFIG_VERSION {
            ConfigView { version: CONFIG_VERSION, ..self }
        } else {
            self
        }
    }

    /// The configuration as it is used after it was loaded: migrated from
    /// its own version, and sanitized where it is not valid.
    pub open spec fn loaded(self) -> ConfigView {
        let migrated = self.migrated(self.version);
        if migrated.is_valid() {
            migrated
        } else {
            migrated.sanitized()
        }
    }
}

/// Filters that are within their limits are left as they are.
pub proof fn lemma_sanitized_filters_within_limits(entries: Seq<(Seq<char>, bool)>)
    requires
        filters_within_limits(entries),
    ensures
        sanitized_filters(entries) == entries,
{
    let long = entries.filter(entry_too_long());
    if long.len() > 0 {
        entries.lemma_filter_pred(entry_too_long(), 0);
        assert(long.contains(long[0]));
        entries.lemma_filter_contains_rev(entry_too_long(), long[0]);
        let i = choose|i: int| 0 <= i < entries.len() && entries[i] == long[0];
        assert(!name_too_long(entries[i].0));
    }
}

/// A valid configuration is left as it is by sanitization.
pub proof fn law_sanitize_keeps_valid(config: ConfigView)
    requires
        config.is_valid(),
    ensures
        config.sanitized() == config,
{
    lemma_sanitized_filters_within_limits(config.app_filters);
}

/// Shortening names adds no entry.
pub proof fn lemma_shorten_names_len(
    entries: Seq<(Seq<char>, bool)>,
    names: Seq<(Seq<char>, bool)>,
)
    ensures
        shorten_names(entries, names).len() <= entries.len(),
    decreases names.len(),
{
    if names.len() > 0 {
        lemma_shorten_names_len(entries, names.drop_last());
        let before = shorten_names(entries, names.drop_last());
        let name = names.last().0;
        if has_key(before, name) {
            let i = crate::string_map::index_of_key(before, name);
            assert(0 <= i < before.len() && before[i].0 == name);
        }
    }
}

/// Sanitization brings every number into its range and no more than
/// `MAX_APP_FILTERS` filters are left. The configuration is then valid
/// unless the popup is too small in area or a filter's name is still too
/// long in bytes.
pub proof fn law_sanitized_ranges(config: ConfigView)
    ensures
        config.sanitized().app_filters.len() <= MAX_APP_FILTERS,
        1 <= config.sanitized().max_visible_notifications <= 50,
        200 <= config.sanitized().popup_width <= 2000,
        200 <= config.sanitized().popup_height <= 2000,
        10 <= config.sanitized().max_history_items <= 1000,
        config.sanitized().min_urgency_level <= 2,
        config.sanitized().default_timeout matches Some(timeout) ==> timeout <= 300_000,
        config.sanitized().history_retention_days matches Some(days) ==> days <= 365,
        -3000 <= config.sanitized().popup_position.offset_x <= 3000,
        -3000 <= config.sanitized().popup_position.offset_y <= 3000,
        5 <= config.sanitized().popup_position.snap_threshold <= 100,
        100 <= config.sanitized().animations.speed_multiplier <= 3000,
        config.sanitized().is_valid() <==> config.sanitized().popup_width
            * config.sanitized().popup_height >= 100_000 && filters_within_limits(
            config.sanitized().app_filters,
        ),
{
    let kept = if config.app_filters.len() > MAX_APP_FILTERS {
        config.app_filters.subrange(0, MAX_APP_FILTERS as int)
    } else {
        config.app_filters
    };
    lemma_shorten_names_len(kept, kept.filter(entry_too_long()));
}

impl AppletConfig {
    /// Validate configuration values: whether all of them are within
    /// their acceptable ranges.
    pub fn validate(&self) -> (r: bool)
        ensures
            r == self@.is_valid(),
    {
        if self.max_visible_notifications < 1 || self.max_visible_notifications > 50 {
            return false;
        }
        if self.popup_width < 200 || self.popup_width > 2000 {
            return false;
        }
        if self.popup_height < 200 || self.popup_height > 2000 {
            return false;
        }
        assert(self.popup_width * self.popup_height <= 4_000_000) by (nonlinear_arith)
            requires
                self.popup_width <= 2000,
                self.popup_height <= 2000,
        ;
        if self.popup_width * self.popup_height < 100_000 {
            return false;
        }
        if self.max_history_items < 10 || self.max_history_items > 1000 {
            return false;
        }
        if self.min_urgency_level > 2 {
            return false;
        }
        match self.default_timeout {
            Some(timeout) => {
                if timeout > 300_000 {
                    return false;
                }
            },
            None => {},
        }
        match self.history_retention_days {
            Some(days) => {
                if days > 365 {
                    return false;
                }
            },
            None => {},
        }
        if self.app_filters.len() > MAX_APP_FILTERS {
            return false;
        }
        let mut i: usize = 0;
        while i < self.app_filters.len()
            invariant
                i <= self.app_filters.entries().len(),
                forall|j: int|
                    0 <= j < i ==> !name_too_long((#[trigger] self.app_filters.entries()[j]).0),
            decreases self.app_filters.entries().len() - i,
        {
            if byte_length(self.app_filters.key_at(i).as_str()) > MAX_APP_NAME_LENGTH {
                assert(name_too_long(self.app_filters.entries()[i as int].0));
                return false;
            }
            i += 1;
        }
        if self.popup_position.offset_x < -3000 || self.popup_position.offset_x > 3000 {
            return false;
        }
        if self.popup_position.offset_y < -3000 || self.popup_position.offset_y > 3000 {
            return false;
        }
        if self.popup_position.snap_threshold < 5 || self.popup_position.snap_threshold > 100 {
            return false;
        }
        if self.animations.speed_multiplier < 100 || self.animations.speed_multiplier > 3000 {
            return false;
        }
        true
    }

    /// Sanitize configuration values: every value is brought into its
    /// acceptable range. Of the per-application filters the first
    /// `MAX_APP_FILTERS` are kept and too long a name is cut to its first
    /// `MAX_APP_NAME_LENGTH` characters.
    pub fn sanitize(&mut self)
        ensures
            final(self)@ == old(self)@.sanitized(),
    {
        self.max_visible_notifications = clamp_usize(self.max_visible_notifications, 1, 50);
        self.popup_width = clamp_u32(self.popup_width, 200, 2000);
        self.popup_height = clamp_u32(self.popup_height, 200, 2000);
        self.max_history_items = clamp_usize(self.max_history_items, 10, 1000);
        self.min_urgency_level = if self.min_urgency_level > 2 {
            2
        } else {
            self.min_urgency_level
        };
        self.default_timeout = cap_option(self.default_timeout, 300_000);
        self.history_retention_days = cap_option(self.history_retention_days, 365);
        sanitize_filters(&mut self.app_filters);
        self.popup_position.offset_x = clamp_i32(self.popup_position.offset_x, -3000, 3000);
        self.popup_position.offset_y = clamp_i32(self.popup_position.offset_y, -3000, 3000);
        self.popup_position.snap_threshold = clamp_u32(self.popup_position.snap_threshold, 5, 100);
        self.animations.speed_multiplier = clamp_u32(self.animations.speed_multiplier, 100, 3000);
    }

    /// Migrate configuration from an older version: a configuration of a
    /// version before `CONFIG_VERSION` is marked as of that version.
    pub fn migrate(&mut self, from_version: u64)
        ensures
            final(self)@ == old(self)@.migrated(from_version),
    {
        if from_version < CONFIG_VERSION {
            self.version = CONFIG_VERSION;
        }
    }
}

impl Default for AppletConfig {
    fn default() -> (r: AppletConfig)
        ensures
            r@ == ConfigView::initial(),
            r@.is_valid(),
    {
        let r = AppletConfig {
            version: default_version(),
            max_visible_notifications: default_max_visible(),
            show_timestamp: default_true(),
            show_app_icon: default_true(),
            popup_width: default_popup_width(),
            popup_height: default_popup_height(),
            popup_position: PopupPosition::default(),
            do_not_disturb: false,
            default_timeout: None,
            play_sound: false,
            show_preview: default_true(),
            history_enabled: default_true(),
            max_history_items: default_max_history(),
            history_retention_days: None,
            app_filters: StringMap::new(),
            min_urgency_level: default_urgency_level(),
            animations: AnimationConfig::default(),
        };
        r
    }
}

impl PartialEq for AppletConfig {
    fn eq(&self, other: &AppletConfig) -> (r: bool) {
        self.version == other.version && self.max_visible_notifications
            == other.max_visible_notifications && self.show_timestamp == other.show_timestamp
            && self.show_app_icon == other.show_app_icon && self.popup_width == other.popup_width
            && self.popup_height == other.popup_height && self.popup_position
            == other.popup_position && self.do_not_disturb == other.do_not_disturb
            && same_option(self.default_timeout, other.default_timeout) && self.play_sound
            == other.play_sound && self.show_preview == other.show_preview && self.history_enabled
            == other.history_enabled && self.max_history_items == other.max_history_items
            && same_option(self.history_retention_days, other.history_retention_days)
            && self.app_filters.equals(&other.app_filters) && self.min_urgency_level
            == other.min_urgency_level && self.animations == other.animations
    }
}

impl PartialEqSpecImpl for AppletConfig {
    open spec fn obeys_eq_spec() -> bool {
        true
    }

    /// Two configurations are equal where all their values are and their
    /// filters hold the same entries, in whatever order.
    open spec fn eq_spec(&self, other: &AppletConfig) -> bool {
        &&& self.version == other.version
        &&& self.max_visible_notifications == other.max_visible_notifications
        &&& self.show_timestamp == other.show_timestamp
        &&& self.show_app_icon == other.show_app_icon
        &&& self.popup_width == other.popup_width
        &&& self.popup_height == other.popup_height
        &&& self.popup_position == other.popup_position
        &&& self.do_not_disturb == other.do_not_disturb
        &&& self.default_timeout == other.default_timeout
        &&& self.play_sound == other.play_sound
        &&& self.show_preview == other.show_preview
        &&& self.history_enabled == other.history_enabled
        &&& self.max_history_items == other.max_history_items
        &&& self.history_retention_days == other.history_retention_days
        &&& self.app_filters@ == other.app_filters@
        &&& self.min_urgency_level == other.min_urgency_level
        &&& self.animations == other.animations
    }
}

/// Whether two optional numbers are the same.
fn same_option(a: Option<u32>, b: Option<u32>) -> (r: bool)
    ensures
        r == (a == b),
{
    match (a, b) {
        (Some(x), Some(y)) => x == y,
        (None, None) => true,
        _ => false,
    }
}

fn clamp_usize(value: usize, low: usize, high: usize) -> (r: usize)
    requires
        low <= high,
    ensures
        r == clamped(value as int, low as int, high as int),
{
    if value < low {
        low
    } else if value > high {
        high
    } else {
        value
    }
}

fn clamp_u32(value: u32, low: u32, high: u32) -> (r: u32)
    requires
        low <= high,
    ensures
        r == clamped(value as int, low as int, high as int),
{
    if value < low {
        low
    } else if value > high {
        high
    } else {
        value
    }
}

fn clamp_i32(value: i32, low: i32, high: i32) -> (r: i32)
    requires
        low <= high,
    ensures
        r == clamped(value as int, low as int, high as int),
{
    if value < low {
        low
    } else if value > high {
        high
    } else {
        value
    }
}

fn cap_option(value: Option<u32>, high: u32) -> (r: Option<u32>)
    ensures
        r == capped(value, high),
{
    match value {
        Some(v) => if v > high {
            Some(high)
        } else {
            Some(v)
        },
        None => None,
    }
}

/// The length of `text` in bytes.
pub fn byte_length(text: &str) -> (n: usize)
    ensures
        n == encode_utf8(text@).len(),
{
    text.as_bytes().len()
}

/// The first `count` characters of `text`.
pub fn cut_to_chars(text: &str, count: usize) -> (r: String)
    ensures
        r@ == first_chars(text@, count as nat),
{
    let length = text.unicode_len();
    if length <= count {
        text.to_owned()
    } else {
        text.substring_char(0, count).to_owned()
    }
}

/// Bring the per-application filters within their limits.
pub fn sanitize_filters(filters: &mut StringMap<bool>)
    ensures
        final(filters).entries() == sanitized_filters(old(filters).entries()),
{
    if filters.len() > MAX_APP_FILTERS {
        filters.truncate(MAX_APP_FILTERS);
    }
    let ghost kept = filters.entries();
    let ghost test = entry_too_long();
    let mut long_names: Vec<String> = Vec::new();
    let mut i: usize = 0;
    proof {
        reveal(Seq::filter);
        assert(kept.subrange(0, 0) =~= Seq::empty());
    }
    while i < filters.len()
        invariant
            i <= kept.len(),
            filters.entries() == kept,
            test == entry_too_long(),
            long_names@.len() == kept.subrange(0, i as int).filter(test).len(),
            forall|j: int|
                0 <= j < long_names@.len() ==> (#[trigger] long_names@[j])@ == kept.subrange(
                    0,
                    i as int,
                ).filter(test)[j].0,
        decreases kept.len() - i,
    {
        proof {
            assert(kept.subrange(0, i as int + 1) =~= kept.subrange(0, i as int).push(
                kept[i as int],
            ));
            kept.subrange(0, i as int).lemma_filter_push(kept[i as int], test);
        }
        if byte_length(filters.key_at(i).as_str()) > MAX_APP_NAME_LENGTH {
            long_names.push(filters.key_at(i).clone());
        }
        i += 1;
    }
    proof {
        assert(kept.subrange(0, i as int) =~= kept);
    }
    let ghost names = kept.filter(test);
    let mut done: usize = 0;
    while done < long_names.len()
        invariant
            done <= long_names@.len(),
            long_names@.len() == names.len(),
            forall|j: int| 0 <= j < long_names@.len() ==> (#[trigger] long_names@[j])@ == names[j].0,
            filters.entries() == shorten_names(kept, names.subrange(0, done as int)),
        decreases long_names@.len() - done,
    {
        let name = &long_names[done];
        proof {
            assert(names.subrange(0, done as int + 1).drop_last() =~= names.subrange(
                0,
                done as int,
            ));
            assert(names.subrange(0, done as int + 1).last() == names[done as int]);
        }
        let ghost before = filters.entries();
        match filters.remove(name.as_str()) {
            Some(value) => {
                let short = cut_to_chars(name.as_str(), MAX_APP_NAME_LENGTH);
                filters.insert(short, value);
            },
            None => {},
        }
        done += 1;
    }
    proof {
        assert(names.subrange(0, done as int) =~= names);
    }
}

/// The version of a configuration that names none.
pub fn default_version() -> (r: u64)
    ensures
        r == CONFIG_VERSION,
{
    CONFIG_VERSION
}

/// The number of visible notifications of a configuration that names
/// none.
pub fn default_max_visible() -> (r: usize)
    ensures
        r == 10,
{
    10
}

/// The value of a switch that is on unless the configuration says
/// otherwise.
pub fn default_true() -> (r: bool)
    ensures
        r,
{
    true
}

/// The popup width in pixels of a configuration that names none.
pub fn default_popup_width() -> (r: u32)
    ensures
        r == 400,
{
    400
}

/// The popup height in pixels of a configuration that names none.
pub fn default_popup_height() -> (r: u32)
    ensures
        r == 600,
{
    600
}

/// The history size of a configuration that names none.
pub fn default_max_history() -> (r: usize)
    ensures
        r == 100,
{
    100
}

/// The minimum urgency of a configuration that names none: all levels
/// are shown.
pub fn default_urgency_level() -> (r: u8)
    ensures
        r == 0,
{
    0
}

/// The snap threshold in pixels of a configuration that names none.
pub fn default_snap_threshold() -> (r: u32)
    ensures
        r == 20,
{
    20
}

/// The animation speed of a configuration that names none: normal speed,
/// in thousandths.
pub fn default_animation_speed() -> (r: u32)
    ensures
        r == 1000,
{
    1000
}

} // verus!
