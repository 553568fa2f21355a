//! Closed error type for the domain layer.

use vstd::prelude::*;
use vstd::string::*;

verus! {

/// Every way a domain value can fail validation.
#[derive(Debug)]
pub enum QuakeError {
    /// A numeric value fell outside its valid range.
    OutOfRange { value: String, min: String, max: String, unit: &'static str },
    /// A quake quality string didn't match any of GeoNet's documented values.
    UnknownQuality(String),
    /// A timestamp could not be parsed.
    InvalidTimestamp(String),
}

impl QuakeError {
    /// The human-readable text of the error.
    pub open spec fn spec_message(self) -> Seq<char> {
        match self {
            QuakeError::OutOfRange { value, min, max, unit } => "Value "@ + value@ + " "@ + unit@
                + " is outside valid range ("@ + min@ + " to "@ + max@ + ")"@,
            QuakeError::UnknownQuality(quality) => "Unknown quake quality: "@ + quality@,
            QuakeError::InvalidTimestamp(ts) => "Invalid timestamp: "@ + ts@,
        }
    }

    /// The human-readable text of the error (what the error shows when
    /// displayed).
    pub fn message(&self) -> (m: String)
        ensures
            m@ == self.spec_message(),
    {
        match self {
            QuakeError::OutOfRange { value, min, max, unit } => {
                let mut m = String::from_str("Value ");
                m.append(value.as_str());
                m.append(" ");
                m.append(unit);
                m.append(" is outside valid range (");
                m.append(min.as_str());
                m.append(" to ");
                m.append(max.as_str());
                m.append(")");
                m
            },
            QuakeError::UnknownQuality(quality) => {
                let mut m = String::from_str("Unknown quake quality: ");
                m.append(quality.as_str());
                m
            },
            QuakeError::InvalidTimestamp(ts) => {
                let mut m = String::from_str("Invalid timestamp: ");
                m.append(ts.as_str());
                m
            },
        }
    }
}

} // verus!
