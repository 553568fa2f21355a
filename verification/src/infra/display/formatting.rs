//! Presentation helpers producing Pango markup and plain text.

use vstd::prelude::*;
use vstd::string::*;

use super::clock::{current_stamp, possible_local_offset, spec_stamp_text};
use crate::domain::types::{DayBand, Mmi, QuakeQuality, QuakeTime};
use crate::text::{decimal, int_to_decimal};

verus! {

/// Day-band header shown above each group of quakes in the tooltip: the
/// bands of eight days or more are all "8+ days ago".
pub open spec fn spec_day_band_header(day_band: DayBand) -> Seq<char> {
    match day_band {
        DayBand::Today => "⏰ Last 24 hours:"@,
        DayBand::OneToTwoDays => "\n⏰ 1-2 days ago:"@,
        DayBand::TwoToFourDays => "\n⏰ 2-4 days ago:"@,
        DayBand::FourToEightDays => "\n⏰ 4-8 days ago:"@,
        DayBand::EightToSixteenDays => "\n⏰ 8+ days ago:"@,
        DayBand::SixteenToThirtyTwoDays => "\n⏰ 8+ days ago:"@,
    }
}

/// Day-band header shown above each group of quakes in the tooltip: the
/// bands of eight days or more are all "8+ days ago".
pub fn day_band_header(day_band: DayBand) -> (h: &'static str)
    ensures
        h@ == spec_day_band_header(day_band),
{
    match day_band {
        DayBand::Today => "⏰ Last 24 hours:",
        DayBand::OneToTwoDays => "\n⏰ 1-2 days ago:",
        DayBand::TwoToFourDays => "\n⏰ 2-4 days ago:",
        DayBand::FourToEightDays => "\n⏰ 4-8 days ago:",
        DayBand::EightToSixteenDays => "\n⏰ 8+ days ago:",
        DayBand::SixteenToThirtyTwoDays => "\n⏰ 8+ days ago:",
    }
}

/// The first band's header opens the tooltip body; every later band's
/// header starts with a blank line. The two bands of eight days or more
/// share the "8+ days ago" header, and the bands under eight days each have
/// their own.
pub proof fn law_day_band_headers(a: DayBand, b: DayBand)
    ensures
        (spec_day_band_header(a)[0] == '\n') <==> a != DayBand::Today,
        spec_day_band_header(DayBand::EightToSixteenDays) == spec_day_band_header(
            DayBand::SixteenToThirtyTwoDays,
        ),
        a.spec_rank() < 4 && a != b ==> spec_day_band_header(a) != spec_day_band_header(b),
{
    reveal_strlit("⏰ Last 24 hours:");
    reveal_strlit("\n⏰ 1-2 days ago:");
    reveal_strlit("\n⏰ 2-4 days ago:");
    reveal_strlit("\n⏰ 4-8 days ago:");
    reveal_strlit("\n⏰ 8+ days ago:");
    if a.spec_rank() < 4 && a != b && spec_day_band_header(a) == spec_day_band_header(b) {
        assert(spec_day_band_header(a)[0] == spec_day_band_header(b)[0]);
        assert(spec_day_band_header(a)[3] == spec_day_band_header(b)[3]);
        assert(spec_day_band_header(a)[5] == spec_day_band_header(b)[5]);
    }
}

/// Quality display: nothing for `Best` (the common case, hidden to reduce
/// noise), else the quality's name and a separator.
pub open spec fn spec_format_quality(quality: QuakeQuality) -> Seq<char> {
    match quality {
        QuakeQuality::Best => Seq::empty(),
        other => "🎯 "@ + other.spec_as_str() + " | "@,
    }
}

/// Quality display, hiding `Best` to reduce noise (it's the common case).
pub fn format_quality(quality: QuakeQuality) -> (s: String)
    ensures
        s@ == spec_format_quality(quality),
{
    match quality {
        QuakeQuality::Best => String::new(),
        other => {
            let mut s = String::from_str("🎯 ");
            s.append(other.as_str());
            s.append(" | ");
            s
        },
    }
}

/// The "Updated: …" trailer shown at the end of the tooltip.
pub open spec fn spec_timestamp_footer(updated: Seq<char>) -> Seq<char> {
    "\n\n🕐 Updated: "@ + updated
}

/// Format the "Updated: …" trailer shown at the end of the tooltip, given
/// the update time as text.
pub fn timestamp_footer_at(updated: &str) -> (s: String)
    ensures
        s@ == spec_timestamp_footer(updated@),
{
    let mut s = String::from_str("\n\n🕐 Updated: ");
    s.append(updated);
    s
}

/// GeoNet's own MMI, shown as an aside after the local estimate when GeoNet
/// supplies one.
pub open spec fn spec_geonet_mmi_aside(mmi: Option<Mmi>) -> Seq<char> {
    match mmi {
        Some(m) => " (GeoNet: MMI"@ + decimal(m.spec_value() as int) + ")"@,
        None => Seq::empty(),
    }
}

/// GeoNet's own MMI, shown as an aside after the local estimate when GeoNet
/// supplies one.
pub fn geonet_mmi_aside(mmi: Option<Mmi>) -> (s: String)
    ensures
        s@ == spec_geonet_mmi_aside(mmi),
{
    match mmi {
        Some(m) => {
            let mut s = String::from_str(" (GeoNet: MMI");
            s.append(int_to_decimal(m.value() as i64).as_str());
            s.append(")");
            s
        },
        None => String::new(),
    }
}

/// Format the "Updated: …" trailer shown at the end of the tooltip, stamped
/// with the current local time.
pub fn format_timestamp_footer() -> (s: String)
    ensures
        exists|now: QuakeTime, local_offset: Option<i32>|
            possible_local_offset(local_offset) && s@ == spec_timestamp_footer(
                spec_stamp_text(now.spec_nanos(), local_offset),
            ),
{
    let stamp = current_stamp();
    timestamp_footer_at(stamp.as_str())
}

} // verus!
