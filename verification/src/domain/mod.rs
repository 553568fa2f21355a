//! Domain layer: value types and business rules for earthquake data.

pub mod error;
pub mod types;

pub mod models;
