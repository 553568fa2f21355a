//! Waybar display text.

pub mod formatting;
pub mod waybar;
pub mod clock;
