//! What the presentation layer derives from notifications and settings.

pub mod animation;
pub mod positioning;
pub mod theme;
pub mod url_parser;
pub mod widgets;
