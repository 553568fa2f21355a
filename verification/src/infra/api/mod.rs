//! GeoNet API wire values.

pub mod models;
