//! Popup positioning: which corner of the panel the popup is attached to,
//! in which direction it extends, and how far it is moved.

use crate::config::{PanelAnchor, PopupPosition, PositionMode};
use crate::string_map::str_equal;
use crate::text::{lowercase_of, to_lowercase};
use vstd::prelude::*;

verus! {

/// Panel edge location.
#[derive(Debug, Clone, Copy, PartialEq, Eq, Structural)]
pub enum PanelEdge {
    Top,
    Bottom,
    Left,
    Right,
}

/// The edge or corner of the anchor rectangle that a popup is attached
/// to, in the terms of the window system's positioner.
#[derive(Debug, Clone, Copy, PartialEq, Eq, Structural)]
pub enum Anchor {
    Top,
    Bottom,
    Left,
    Right,
    TopLeft,
    BottomLeft,
    TopRight,
    BottomRight,
}

/// The direction in which a popup extends from its anchor point, in the
/// terms of the window system's positioner.
#[derive(Debug, Clone, Copy, PartialEq, Eq, Structural)]
pub enum Gravity {
    Top,
    Bottom,
    Left,
    Right,
    TopLeft,
    BottomLeft,
    TopRight,
    BottomRight,
}

/// The edge that a panel anchor's name in lowercase stands for; the
/// bottom edge where there is no name or it is none of the four.
pub open spec fn edge_named(name: Option<Seq<char>>) -> PanelEdge {
    match name {
        Some(n) => if n == "top"@ {
            PanelEdge::Top
        } else if n == "bottom"@ {
            PanelEdge::Bottom
        } else if n == "left"@ {
            PanelEdge::Left
        } else if n == "right"@ {
            PanelEdge::Right
        } else {
            PanelEdge::Bottom
        },
        None => PanelEdge::Bottom,
    }
}

impl PanelEdge {
    /// The edge that a panel anchor's name in lowercase stands for.
    pub fn from_name(name: Option<&str>) -> (edge: PanelEdge)
        ensures
            edge == edge_named(
                match name {
                    Some(n) => Some(n@),
                    None => None,
                },
            ),
    {
        match name {
            Some(n) => {
                if str_equal(n, "top") {
                    PanelEdge::Top
                } else if str_equal(n, "bottom") {
                    PanelEdge::Bottom
                } else if str_equal(n, "left") {
                    PanelEdge::Left
                } else if str_equal(n, "right") {
                    PanelEdge::Right
                } else {
                    PanelEdge::Bottom
                }
            },
            None => PanelEdge::Bottom,
        }
    }

    /// Detect the panel edge from the value of the environment's panel
    /// anchor variable, whatever the case of its letters. Falls back to
    /// the bottom edge, the most common panel position.
    pub fn detect(anchor: Option<&str>) -> (edge: PanelEdge)
        ensures
            edge == edge_named(
                match anchor {
                    Some(a) => Some(lowercase_of(a@)),
                    None => None,
                },
            ),
    {
        match anchor {
            Some(a) => {
                let lowered = to_lowercase(a);
                PanelEdge::from_name(Some(lowered.as_str()))
            },
            None => PanelEdge::from_name(None),
        }
    }
}

/// The gravity for a panel edge: the popup always extends away from the
/// panel.
pub open spec fn gravity_for(panel_edge: PanelEdge) -> Gravity {
    match panel_edge {
        PanelEdge::Top => Gravity::Bottom,
        PanelEdge::Bottom => Gravity::Top,
        PanelEdge::Left => Gravity::Right,
        PanelEdge::Right => Gravity::Left,
    }
}

/// The automatic position for a panel edge: attached to the side of the
/// anchor that faces away from the panel, extending that way, unmoved.
pub open spec fn auto_position(panel_edge: PanelEdge) -> (Anchor, Gravity, (i32, i32)) {
    match panel_edge {
        PanelEdge::Top => (Anchor::Bottom, Gravity::Bottom, (0, 0)),
        PanelEdge::Bottom => (Anchor::Top, Gravity::Top, (0, 0)),
        PanelEdge::Left => (Anchor::Right, Gravity::Right, (0, 0)),
        PanelEdge::Right => (Anchor::Left, Gravity::Left, (0, 0)),
    }
}

/// The anchor point for a panel edge and a configured panel anchor.
pub open spec fn anchor_for(panel_edge: PanelEdge, panel_anchor: PanelAnchor) -> Anchor {
    match (panel_edge, panel_anchor) {
        (PanelEdge::Top, PanelAnchor::Start) => Anchor::BottomLeft,
        (PanelEdge::Bottom, PanelAnchor::Start) => Anchor::BottomLeft,
        (PanelEdge::Top, PanelAnchor::Center) => Anchor::Bottom,
        (PanelEdge::Bottom, PanelAnchor::Center) => Anchor::Bottom,
        (PanelEdge::Top, PanelAnchor::End) => Anchor::BottomRight,
        (PanelEdge::Bottom, PanelAnchor::End) => Anchor::BottomRight,
        (PanelEdge::Top, PanelAnchor::AppletIcon) => Anchor::Bottom,
        (PanelEdge::Bottom, PanelAnchor::AppletIcon) => Anchor::Top,
        (PanelEdge::Left, PanelAnchor::Start) => Anchor::TopRight,
        (PanelEdge::Right, PanelAnchor::Start) => Anchor::TopRight,
        (PanelEdge::Left, PanelAnchor::Center) => Anchor::Right,
        (PanelEdge::Right, PanelAnchor::Center) => Anchor::Right,
        (PanelEdge::Left, PanelAnchor::End) => Anchor::BottomRight,
        (PanelEdge::Right, PanelAnchor::End) => Anchor::BottomRight,
        (PanelEdge::Left, PanelAnchor::AppletIcon) => Anchor::Right,
        (PanelEdge::Right, PanelAnchor::AppletIcon) => Anchor::Left,
    }
}

/// An offset after snapping: 0 where snapping is on and the offset is
/// closer to 0 than the threshold, else the offset itself.
pub open spec fn snapped(offset: i32, snap_to_edge: bool, snap_threshold: u32) -> i32 {
    if snap_to_edge && -snap_threshold < offset < snap_threshold {
        0
    } else {
        offset
    }
}

/// The offset of a popup for a configuration.
pub open spec fn offset_for(config: PopupPosition) -> (i32, i32) {
    (
        snapped(config.offset_x, config.snap_to_edge, config.snap_threshold),
        snapped(config.offset_y, config.snap_to_edge, config.snap_threshold),
    )
}

/// The position of a popup for a configuration and a panel edge.
pub open spec fn popup_position(config: PopupPosition, panel_edge: PanelEdge) -> (
    Anchor,
    Gravity,
    (i32, i32),
) {
    match config.mode {
        PositionMode::Auto => auto_position(panel_edge),
        PositionMode::PanelRelative => (
            anchor_for(panel_edge, config.anchor),
            gravity_for(panel_edge),
            offset_for(config),
        ),
    }
}

/// Calculate popup positioner settings based on configuration: the
/// anchor, the gravity and the offset in pixels from the anchor point.
pub fn calculate_popup_position(config: &PopupPosition, panel_edge: PanelEdge) -> (r: (
    Anchor,
    Gravity,
    (i32, i32),
))
    ensures
        r == popup_position(*config, panel_edge),
{
    match config.mode {
        PositionMode::Auto => calculate_auto_position(panel_edge),
        PositionMode::PanelRelative => calculate_panel_relative_position(config, panel_edge),
    }
}

/// Calculate automatic position based on panel edge: the popup extends
/// away from the panel.
pub fn calculate_auto_position(panel_edge: PanelEdge) -> (r: (Anchor, Gravity, (i32, i32)))
    ensures
        r == auto_position(panel_edge),
{
    match panel_edge {
        PanelEdge::Top => (Anchor::Bottom, Gravity::Bottom, (0, 0)),
        PanelEdge::Bottom => (Anchor::Top, Gravity::Top, (0, 0)),
        PanelEdge::Left => (Anchor::Right, Gravity::Right, (0, 0)),
        PanelEdge::Right => (Anchor::Left, Gravity::Left, (0, 0)),
    }
}

/// Calculate panel-relative position with custom anchor and offsets.
pub fn calculate_panel_relative_position(config: &PopupPosition, panel_edge: PanelEdge) -> (r: (
    Anchor,
    Gravity,
    (i32, i32),
))
    ensures
        r == (anchor_for(panel_edge, config.anchor), gravity_for(panel_edge), offset_for(*config)),
{
    let anchor = determine_anchor(panel_edge, config.anchor);
    let gravity = determine_gravity(panel_edge);
    let offset = calculate_offset(config);
    (anchor, gravity, offset)
}

/// Determine anchor point based on panel edge and configured anchor.
pub fn determine_anchor(panel_edge: PanelEdge, panel_anchor: PanelAnchor) -> (r: Anchor)
    ensures
        r == anchor_for(panel_edge, panel_anchor),
{
    match (panel_edge, panel_anchor) {
        (PanelEdge::Top, PanelAnchor::Start) => Anchor::BottomLeft,
        (PanelEdge::Bottom, PanelAnchor::Start) => Anchor::BottomLeft,
        (PanelEdge::Top, PanelAnchor::Center) => Anchor::Bottom,
        (PanelEdge::Bottom, PanelAnchor::Center) => Anchor::Bottom,
        (PanelEdge::Top, PanelAnchor::End) => Anchor::BottomRight,
        (PanelEdge::Bottom, PanelAnchor::End) => Anchor::BottomRight,
        (PanelEdge::Top, PanelAnchor::AppletIcon) => Anchor::Bottom,
        (PanelEdge::Bottom, PanelAnchor::AppletIcon) => Anchor::Top,
        (PanelEdge::Left, PanelAnchor::Start) => Anchor::TopRight,
        (PanelEdge::Right, PanelAnchor::Start) => Anchor::TopRight,
        (PanelEdge::Left, PanelAnchor::Center) => Anchor::Right,
        (PanelEdge::Right, PanelAnchor::Center) => Anchor::Right,
        (PanelEdge::Left, PanelAnchor::End) => Anchor::BottomRight,
        (PanelEdge::Right, PanelAnchor::End) => Anchor::BottomRight,
        (PanelEdge::Left, PanelAnchor::AppletIcon) => Anchor::Right,
        (PanelEdge::Right, PanelAnchor::AppletIcon) => Anchor::Left,
    }
}

/// Determine gravity based on panel edge.
pub fn determine_gravity(panel_edge: PanelEdge) -> (r: Gravity)
    ensures
        r == gravity_for(panel_edge),
{
    match panel_edge {
        PanelEdge::Top => Gravity::Bottom,
        PanelEdge::Bottom => Gravity::Top,
        PanelEdge::Left => Gravity::Right,
        PanelEdge::Right => Gravity::Left,
    }
}

/// One offset with the snap-to-edge behavior.
fn snap(offset: i32, snap_to_edge: bool, snap_threshold: u32) -> (r: i32)
    ensures
        r == snapped(offset, snap_to_edge, snap_threshold),
{
    let threshold = snap_threshold as i64;
    let wide = offset as i64;
    if snap_to_edge && -threshold < wide && wide < threshold {
        0
    } else {
        offset
    }
}

/// Calculate offset with optional snap-to-edge behavior.
pub fn calculate_offset(config: &PopupPosition) -> (r: (i32, i32))
    ensures
        r == offset_for(*config),
{
    (
        snap(config.offset_x, config.snap_to_edge, config.snap_threshold),
        snap(config.offset_y, config.snap_to_edge, config.snap_threshold),
    )
}

} // verus!
