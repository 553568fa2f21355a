//! Date-time text for the display: quake times and update stamps in the
//! system's local time.

use vstd::prelude::*;

use crate::domain::types::{offset_in_range, QuakeTime};

verus! {

/// The text that the `time` crate writes for the instant `nanos`
/// (nanoseconds since the Unix epoch) seen at UTC offset `offset` (seconds),
/// following the format description `description`; `None` where the crate
/// writes nothing (a description it rejects, an instant or offset it cannot
/// hold, or an instant that the offset carries out of range).
pub uninterp spec fn date_time_text(nanos: i128, offset: i32, description: Seq<char>) -> Option<
    Seq<char>,
>;

/// The text held by an optional `String`.
pub open spec fn optional_text(s: Option<String>) -> Option<Seq<char>> {
    match s {
        Some(t) => Some(t@),
        None => None,
    }
}

/// Calls `time::OffsetDateTime::format` on the instant shifted to the
/// offset (built by `from_unix_timestamp_nanos`, `UtcOffset::from_whole_seconds`
/// and `checked_to_offset`) with the description that
/// `time::format_description::parse` reads. Trusted: the result is the named
/// text of these arguments.
#[verifier::external_body]
fn format_date_time(nanos: i128, offset: i32, description: &str) -> (r: Option<String>)
    ensures
        optional_text(r) == date_time_text(nanos, offset, description@),
{
    let items = match time::format_description::parse(description) {
        Ok(items) => items,
        Err(_) => return None,
    };
    let shifted = match (
        time::OffsetDateTime::from_unix_timestamp_nanos(nanos),
        time::UtcOffset::from_whole_seconds(offset),
    ) {
        (Ok(instant), Ok(offset)) => instant.checked_to_offset(offset),
        _ => None,
    };
    match shifted {
        Some(t) => t.format(&items).ok(),
        None => None,
    }
}

/// Calls `time::UtcOffset::current_local_offset`. Trusted: an offset that
/// comes back is one the `time` crate can hold. Whether one comes back, and
/// which, depends on the system's time zone and is not stated.
#[verifier::external_body]
pub(crate) fn local_offset_seconds() -> (r: Option<i32>)
    ensures
        r matches Some(o) ==> offset_in_range(o as int),
{
    match time::UtcOffset::current_local_offset() {
        Ok(offset) => Some(offset.whole_seconds()),
        Err(_) => None,
    }
}

/// Format description of a quake's time.
pub open spec fn quake_time_description() -> Seq<char> {
    "[year]-[month]-[day] [hour]:[minute]:[second]"@
}

/// Format description of an update stamp.
pub open spec fn stamp_description() -> Seq<char> {
    "[year]-[month]-[day] [hour]:[minute]"@
}

/// The offset used for local time: the local offset, or UTC where it cannot
/// be determined.
pub open spec fn offset_or_utc(local_offset: Option<i32>) -> i32 {
    match local_offset {
        Some(o) => o,
        None => 0,
    }
}

/// The written text, or "Unknown" where there is none.
pub open spec fn text_or_unknown(text: Option<Seq<char>>) -> Seq<char> {
    match text {
        Some(t) => t,
        None => "Unknown"@,
    }
}

/// A quake's time as the display shows it, seen at `local_offset`.
pub open spec fn spec_quake_time_text(nanos: i128, local_offset: Option<i32>) -> Seq<char> {
    text_or_unknown(date_time_text(nanos, offset_or_utc(local_offset), quake_time_description()))
}

/// An update stamp for the instant `nanos`, seen at `local_offset`.
pub open spec fn spec_stamp_text(nanos: i128, local_offset: Option<i32>) -> Seq<char> {
    text_or_unknown(date_time_text(nanos, offset_or_utc(local_offset), stamp_description()))
}

/// A local offset that the system can report: none, or one in range.
pub open spec fn possible_local_offset(local_offset: Option<i32>) -> bool {
    local_offset matches Some(o) ==> offset_in_range(o as int)
}

fn shown_or_unknown(text: Option<String>) -> (s: String)
    ensures
        s@ == text_or_unknown(optional_text(text)),
{
    match text {
        Some(t) => t,
        None => String::from_str("Unknown"),
    }
}

/// Format a quake's time (date and time to the second) as seen at the UTC
/// offset `local_offset`, or at UTC where that is unknown.
pub fn format_time_at(time: &QuakeTime, local_offset: Option<i32>) -> (s: String)
    ensures
        s@ == spec_quake_time_text(time.spec_nanos(), local_offset),
{
    let offset = match local_offset {
        Some(o) => o,
        None => 0,
    };
    shown_or_unknown(
        format_date_time(
            time.unix_timestamp_nanos(),
            offset,
            "[year]-[month]-[day] [hour]:[minute]:[second]",
        ),
    )
}

/// Format a quake's time in system local time (UTC where the local offset
/// cannot be determined).
pub fn format_time(time: &QuakeTime) -> (s: String)
    ensures
        exists|local_offset: Option<i32>|
            possible_local_offset(local_offset) && s@ == spec_quake_time_text(
                time.spec_nanos(),
                local_offset,
            ),
{
    let local_offset = local_offset_seconds();
    let s = format_time_at(time, local_offset);
    assert(possible_local_offset(local_offset) && s@ == spec_quake_time_text(
        time.spec_nanos(),
        local_offset,
    ));
    s
}

/// An update stamp (date and time to the minute) for `now`, as seen at the
/// UTC offset `local_offset`, or at UTC where that is unknown.
pub fn stamp_at(now: &QuakeTime, local_offset: Option<i32>) -> (s: String)
    ensures
        s@ == spec_stamp_text(now.spec_nanos(), local_offset),
{
    let offset = match local_offset {
        Some(o) => o,
        None => 0,
    };
    shown_or_unknown(
        format_date_time(now.unix_timestamp_nanos(), offset, "[year]-[month]-[day] [hour]:[minute]"),
    )
}

/// The current local time to the minute (UTC where the local offset cannot
/// be determined), for update and attempt stamps.
pub fn current_stamp() -> (s: String)
    ensures
        exists|now: QuakeTime, local_offset: Option<i32>|
            possible_local_offset(local_offset) && s@ == spec_stamp_text(now.spec_nanos(), local_offset),
{
    let now = QuakeTime::now();
    let local_offset = local_offset_seconds();
    let s = stamp_at(&now, local_offset);
    assert(possible_local_offset(local_offset) && s@ == spec_stamp_text(now.spec_nanos(), local_offset));
    s
}

} // verus!
