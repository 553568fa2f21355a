//! Adapters' pure parts: the rules for GeoNet's wire values and the text of
//! the Waybar output.

pub mod api;
pub mod display;
