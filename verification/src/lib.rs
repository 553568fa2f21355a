//! GeoNet earthquake summaries for a Waybar status module: validated domain
//! values, the retention and ordering rules for recent quakes, and the text
//! that the module shows.

pub mod domain;
pub mod infra;
pub mod location;
pub mod text;
