//! Core domain types for earthquake data: validated whole-number readings,
//! compass directions, day bands, quality values and quake timestamps.

use std::marker::PhantomData;
use vstd::prelude::*;
use vstd::string::*;

use super::error::QuakeError;
use crate::text::{decimal, int_to_decimal};

verus! {

// === Range validation ===

/// An inclusive range of valid readings, with its unit. The bounds of every
/// range in the domain are whole numbers.
pub trait RangeValidated: Sized {
    spec fn spec_min() -> int;

    spec fn spec_max() -> int;

    spec fn spec_unit() -> Seq<char>;

    /// The smallest valid reading.
    fn min() -> (r: i32)
        ensures
            r as int == Self::spec_min(),
    ;

    /// The largest valid reading.
    fn max() -> (r: i32)
        ensures
            r as int == Self::spec_max(),
    ;

    /// The unit that readings of this range are given in.
    fn unit() -> (r: &'static str)
        ensures
            r@ == Self::spec_unit(),
    ;

    /// The error for a reading outside the range, given the reading as text.
    fn out_of_range(value: String) -> (e: QuakeError)
        ensures
            e matches QuakeError::OutOfRange { value: v, min, max, unit } && v@ == value@
                && min@ == decimal(Self::spec_min()) && max@ == decimal(Self::spec_max()) && unit@
                == Self::spec_unit(),
    {
        let min = int_to_decimal(Self::min() as i64);
        let max = int_to_decimal(Self::max() as i64);
        QuakeError::OutOfRange { value, min, max, unit: Self::unit() }
    }

    /// Check that a whole-number reading lies in `[min, max]`.
    fn validate(value: i32) -> (r: Result<(), QuakeError>)
        ensures
            r is Ok <==> Self::spec_min() <= value <= Self::spec_max(),
            r matches Err(QuakeError::OutOfRange { value: v, min, max, unit }) ==> v@ == decimal(
                value as int,
            ) && min@ == decimal(Self::spec_min()) && max@ == decimal(Self::spec_max()) && unit@
                == Self::spec_unit(),
            r is Err ==> r matches Err(QuakeError::OutOfRange { .. }),
    {
        if value < Self::min() || value > Self::max() {
            Err(Self::out_of_range(int_to_decimal(value as i64)))
        } else {
            Ok(())
        }
    }
}

/// `e` reports `value` (as text) outside the range `R`, with `R`'s bounds
/// written in decimal and `R`'s unit.
pub open spec fn is_out_of_range_error<R: RangeValidated>(e: QuakeError, value: Seq<char>) -> bool {
    e matches QuakeError::OutOfRange { value: v, min, max, unit } && v@ == value && min@ == decimal(
        R::spec_min(),
    ) && max@ == decimal(R::spec_max()) && unit@ == R::spec_unit()
}

/// A whole-number reading that lies within the range `R`.
#[derive(Debug)]
pub struct RangeValidatedValue<R: RangeValidated> {
    value: i32,
    range: PhantomData<R>,
}

impl<R: RangeValidated> RangeValidatedValue<R> {
    #[verifier::type_invariant]
    spec fn within_range(self) -> bool {
        R::spec_min() <= self.value <= R::spec_max()
    }

    /// The reading.
    pub closed spec fn spec_value(self) -> i32 {
        self.value
    }

    /// Validate a reading; the only way to construct this type.
    pub fn new(value: i32) -> (r: Result<Self, QuakeError>)
        ensures
            r is Ok <==> R::spec_min() <= value <= R::spec_max(),
            r matches Ok(v) ==> v.spec_value() == value,
            r matches Err(e) ==> is_out_of_range_error::<R>(e, decimal(value as int)),
    {
        match R::validate(value) {
            Ok(()) => Ok(RangeValidatedValue { value, range: PhantomData }),
            Err(e) => Err(e),
        }
    }

    /// The validated reading.
    pub fn value(&self) -> (r: i32)
        ensures
            r == self.spec_value(),
            R::spec_min() <= r <= R::spec_max(),
    {
        proof {
            use_type_invariant(self);
        }
        self.value
    }
}

impl<R: RangeValidated> Clone for RangeValidatedValue<R> {
    fn clone(&self) -> (r: Self)
        ensures
            r.spec_value() == self.spec_value(),
    {
        proof {
            use_type_invariant(self);
        }
        RangeValidatedValue { value: self.value, range: PhantomData }
    }
}

impl<R: RangeValidated> Copy for RangeValidatedValue<R> {

}

/// Earthquake magnitude range, generous enough to cover the Richter scale's
/// practical extremes (small negative-magnitude events are real, recorded
/// GeoNet data; nothing on Earth has exceeded M10).
#[derive(Debug, Clone, Copy)]
pub struct MagnitudeRange;

impl RangeValidated for MagnitudeRange {
    open spec fn spec_min() -> int {
        -3
    }

    open spec fn spec_max() -> int {
        10
    }

    open spec fn spec_unit() -> Seq<char> {
        "magnitude"@
    }

    fn min() -> (r: i32) {
        -3
    }

    fn max() -> (r: i32) {
        10
    }

    fn unit() -> (r: &'static str) {
        "magnitude"
    }
}

/// Earthquake depth range in km (deepest recorded earthquakes are ~700km).
#[derive(Debug, Clone, Copy)]
pub struct DepthRange;

impl RangeValidated for DepthRange {
    open spec fn spec_min() -> int {
        0
    }

    open spec fn spec_max() -> int {
        700
    }

    open spec fn spec_unit() -> Seq<char> {
        "km"@
    }

    fn min() -> (r: i32) {
        0
    }

    fn max() -> (r: i32) {
        700
    }

    fn unit() -> (r: &'static str) {
        "km"
    }
}

/// Modified Mercalli Intensity range (0 to 12), as GeoNet reports it.
#[derive(Debug, Clone, Copy)]
pub struct MmiRange;

impl RangeValidated for MmiRange {
    open spec fn spec_min() -> int {
        0
    }

    open spec fn spec_max() -> int {
        12
    }

    open spec fn spec_unit() -> Seq<char> {
        "MMI"@
    }

    fn min() -> (r: i32) {
        0
    }

    fn max() -> (r: i32) {
        12
    }

    fn unit() -> (r: &'static str) {
        "MMI"
    }
}

/// Locally-derived MMI range: the same 0..=12 scale as `MmiRange`, for the
/// continuous intensity estimated at the user's location.
#[derive(Debug, Clone, Copy)]
pub struct LocalMmiRange;

impl RangeValidated for LocalMmiRange {
    open spec fn spec_min() -> int {
        0
    }

    open spec fn spec_max() -> int {
        12
    }

    open spec fn spec_unit() -> Seq<char> {
        "MMI (local)"@
    }

    fn min() -> (r: i32) {
        0
    }

    fn max() -> (r: i32) {
        12
    }

    fn unit() -> (r: &'static str) {
        "MMI (local)"
    }
}

/// Latitude range, globally valid (not NZ-specific).
#[derive(Debug, Clone, Copy)]
pub struct LatitudeRange;

impl RangeValidated for LatitudeRange {
    open spec fn spec_min() -> int {
        -90
    }

    open spec fn spec_max() -> int {
        90
    }

    open spec fn spec_unit() -> Seq<char> {
        "°"@
    }

    fn min() -> (r: i32) {
        -90
    }

    fn max() -> (r: i32) {
        90
    }

    fn unit() -> (r: &'static str) {
        "°"
    }
}

/// Longitude range, globally valid.
#[derive(Debug, Clone, Copy)]
pub struct LongitudeRange;

impl RangeValidated for LongitudeRange {
    open spec fn spec_min() -> int {
        -180
    }

    open spec fn spec_max() -> int {
        180
    }

    open spec fn spec_unit() -> Seq<char> {
        "°"@
    }

    fn min() -> (r: i32) {
        -180
    }

    fn max() -> (r: i32) {
        180
    }

    fn unit() -> (r: &'static str) {
        "°"
    }
}

/// Modified Mercalli Intensity with validation. Not every quake carries one
/// — callers use `Option<Mmi>`.
pub type Mmi = RangeValidatedValue<MmiRange>;

// === Compass direction ===

/// The 8-point compass. Illegal states (an out-of-range or nonsensical
/// direction string) are unrepresentable.
#[derive(Debug, Clone, Copy, PartialEq, Eq, Structural)]
pub enum CompassDirection {
    N,
    Ne,
    E,
    Se,
    S,
    Sw,
    W,
    Nw,
}

impl CompassDirection {
    /// The point of the compass for a count of 45-degree sectors clockwise
    /// from north, each sector centred on its point: sector `k` holds the
    /// bearings in `[45k - 22.5, 45k + 22.5)`, and the count wraps every
    /// eight sectors.
    pub open spec fn spec_from_sector(sector: int) -> CompassDirection {
        let k = sector % 8;
        if k == 0 {
            CompassDirection::N
        } else if k == 1 {
            CompassDirection::Ne
        } else if k == 2 {
            CompassDirection::E
        } else if k == 3 {
            CompassDirection::Se
        } else if k == 4 {
            CompassDirection::S
        } else if k == 5 {
            CompassDirection::Sw
        } else if k == 6 {
            CompassDirection::W
        } else {
            CompassDirection::Nw
        }
    }

    /// Band a bearing into one of the 8 compass points, given the bearing's
    /// sector count `floor((bearing + 22.5) / 45)`.
    pub fn from_sector(sector: usize) -> (d: CompassDirection)
        ensures
            d == Self::spec_from_sector(sector as int),
    {
        let k = sector % 8;
        if k == 0 {
            CompassDirection::N
        } else if k == 1 {
            CompassDirection::Ne
        } else if k == 2 {
            CompassDirection::E
        } else if k == 3 {
            CompassDirection::Se
        } else if k == 4 {
            CompassDirection::S
        } else if k == 5 {
            CompassDirection::Sw
        } else if k == 6 {
            CompassDirection::W
        } else {
            CompassDirection::Nw
        }
    }

    /// The abbreviation shown for the direction.
    pub open spec fn spec_as_str(self) -> Seq<char> {
        match self {
            CompassDirection::N => "N"@,
            CompassDirection::Ne => "NE"@,
            CompassDirection::E => "E"@,
            CompassDirection::Se => "SE"@,
            CompassDirection::S => "S"@,
            CompassDirection::Sw => "SW"@,
            CompassDirection::W => "W"@,
            CompassDirection::Nw => "NW"@,
        }
    }

    /// The abbreviation shown for the direction (its display text).
    pub fn as_str(&self) -> (s: &'static str)
        ensures
            s@ == self.spec_as_str(),
    {
        match self {
            CompassDirection::N => "N",
            CompassDirection::Ne => "NE",
            CompassDirection::E => "E",
            CompassDirection::Se => "SE",
            CompassDirection::S => "S",
            CompassDirection::Sw => "SW",
            CompassDirection::W => "W",
            CompassDirection::Nw => "NW",
        }
    }
}

/// The compass is periodic: adding a full turn of eight sectors names the
/// same point.
pub proof fn law_compass_full_turn(sector: nat)
    ensures
        CompassDirection::spec_from_sector(sector + 8int) == CompassDirection::spec_from_sector(
            sector as int,
        ),
{
    assert((sector + 8) % 8 == sector % 8);
}

/// Sector `k` names the compass point `45k` degrees clockwise from north:
/// the points in clockwise order are N, NE, E, SE, S, SW, W, NW, and the
/// count wraps every full turn.
pub proof fn law_compass_clockwise(sector: nat)
    ensures
        CompassDirection::spec_from_sector(sector as int) == seq![
            CompassDirection::N,
            CompassDirection::Ne,
            CompassDirection::E,
            CompassDirection::Se,
            CompassDirection::S,
            CompassDirection::Sw,
            CompassDirection::W,
            CompassDirection::Nw,
        ][(sector % 8) as int],
        CompassDirection::spec_from_sector(sector as int).spec_as_str() == seq![
            "N"@,
            "NE"@,
            "E"@,
            "SE"@,
            "S"@,
            "SW"@,
            "W"@,
            "NW"@,
        ][(sector % 8) as int],
{
}

/// Opposite sectors (four apart) name opposite points: N and S, NE and SW,
/// E and W, SE and NW.
pub proof fn law_compass_opposites(sector: nat)
    ensures
        ({
            let a = CompassDirection::spec_from_sector(sector as int);
            let b = CompassDirection::spec_from_sector(sector + 4int);
            (a == CompassDirection::N && b == CompassDirection::S) || (a == CompassDirection::Ne
                && b == CompassDirection::Sw) || (a == CompassDirection::E && b
                == CompassDirection::W) || (a == CompassDirection::Se && b == CompassDirection::Nw)
                || (a == CompassDirection::S && b == CompassDirection::N) || (a
                == CompassDirection::Sw && b == CompassDirection::Ne) || (a == CompassDirection::W
                && b == CompassDirection::E) || (a == CompassDirection::Nw && b
                == CompassDirection::Se)
        }),
{
    assert((sector + 4) % 8 == (sector % 8 + 4) % 8);
}

/// Each of the eight points has its own abbreviation.
pub proof fn law_compass_abbreviations_distinct(a: CompassDirection, b: CompassDirection)
    requires
        a != b,
    ensures
        a.spec_as_str() != b.spec_as_str(),
{
    reveal_strlit("N");
    reveal_strlit("NE");
    reveal_strlit("E");
    reveal_strlit("SE");
    reveal_strlit("S");
    reveal_strlit("SW");
    reveal_strlit("W");
    reveal_strlit("NW");
    if a.spec_as_str() == b.spec_as_str() {
        assert(a.spec_as_str().len() == b.spec_as_str().len());
        assert(a.spec_as_str()[0] == b.spec_as_str()[0]);
        if a.spec_as_str().len() == 2 {
            assert(a.spec_as_str()[1] == b.spec_as_str()[1]);
        }
    }
}

// === Day band ===

/// Seconds in a day.
pub const SECONDS_PER_DAY: i64 = 86400;

/// Groups earthquakes by age for tooltip display. The bands double in
/// width: under 1 day, 1-2, 2-4, 4-8, 8-16, and 16 days or more (the last
/// band also takes anything older than 32 days).
#[derive(Debug, Clone, Copy, PartialEq, Eq, PartialOrd, Ord, Structural)]
pub enum DayBand {
    Today,
    OneToTwoDays,
    TwoToFourDays,
    FourToEightDays,
    EightToSixteenDays,
    SixteenToThirtyTwoDays,
}

impl DayBand {
    /// The band of an age given in whole seconds: an age of `s` seconds is
    /// `s / 86400` days, and the band edges fall on whole days.
    pub open spec fn spec_from_age_seconds(age_seconds: int) -> DayBand {
        if age_seconds < 86400 {
            DayBand::Today
        } else if age_seconds < 2 * 86400 {
            DayBand::OneToTwoDays
        } else if age_seconds < 4 * 86400 {
            DayBand::TwoToFourDays
        } else if age_seconds < 8 * 86400 {
            DayBand::FourToEightDays
        } else if age_seconds < 16 * 86400 {
            DayBand::EightToSixteenDays
        } else {
            DayBand::SixteenToThirtyTwoDays
        }
    }

    /// Position of the band, most recent first.
    pub open spec fn spec_rank(self) -> int {
        match self {
            DayBand::Today => 0,
            DayBand::OneToTwoDays => 1,
            DayBand::TwoToFourDays => 2,
            DayBand::FourToEightDays => 3,
            DayBand::EightToSixteenDays => 4,
            DayBand::SixteenToThirtyTwoDays => 5,
        }
    }

    /// The band of an age given in whole seconds.
    pub fn from_age_seconds(age_seconds: i64) -> (b: DayBand)
        ensures
            b == Self::spec_from_age_seconds(age_seconds as int),
    {
        if age_seconds < SECONDS_PER_DAY {
            DayBand::Today
        } else if age_seconds < 2 * SECONDS_PER_DAY {
            DayBand::OneToTwoDays
        } else if age_seconds < 4 * SECONDS_PER_DAY {
            DayBand::TwoToFourDays
        } else if age_seconds < 8 * SECONDS_PER_DAY {
            DayBand::FourToEightDays
        } else if age_seconds < 16 * SECONDS_PER_DAY {
            DayBand::EightToSixteenDays
        } else {
            DayBand::SixteenToThirtyTwoDays
        }
    }

    /// Position of the band, most recent first (the order the bands are
    /// declared and shown in).
    pub fn rank(&self) -> (r: u8)
        ensures
            r as int == self.spec_rank(),
    {
        match self {
            DayBand::Today => 0,
            DayBand::OneToTwoDays => 1,
            DayBand::TwoToFourDays => 2,
            DayBand::FourToEightDays => 3,
            DayBand::EightToSixteenDays => 4,
            DayBand::SixteenToThirtyTwoDays => 5,
        }
    }
}

/// The band edges fall on 1, 2, 4, 8 and 16 whole days: an age of `s`
/// seconds lies in the band whose day range holds `s / 86400` days.
pub proof fn law_day_band_edges(s: int)
    ensures
        s < 86400 ==> DayBand::spec_from_age_seconds(s) == DayBand::Today,
        86400 <= s < 172800 ==> DayBand::spec_from_age_seconds(s) == DayBand::OneToTwoDays,
        172800 <= s < 345600 ==> DayBand::spec_from_age_seconds(s) == DayBand::TwoToFourDays,
        345600 <= s < 691200 ==> DayBand::spec_from_age_seconds(s) == DayBand::FourToEightDays,
        691200 <= s < 1382400 ==> DayBand::spec_from_age_seconds(s)
            == DayBand::EightToSixteenDays,
        1382400 <= s ==> DayBand::spec_from_age_seconds(s) == DayBand::SixteenToThirtyTwoDays,
{
}

/// An older quake never falls in a more recent band than a newer one.
pub proof fn law_day_band_monotone(younger: int, older: int)
    requires
        younger <= older,
    ensures
        DayBand::spec_from_age_seconds(younger).spec_rank() <= DayBand::spec_from_age_seconds(
            older,
        ).spec_rank(),
{
}

// === Quake quality ===

/// GeoNet's documented quake data-quality values. Closed, no catch-all: an
/// unrecognised value is a hard parse failure.
#[derive(Debug, Clone, Copy, PartialEq, Eq, Structural)]
pub enum QuakeQuality {
    Best,
    Preliminary,
    Automatic,
    Deleted,
}

impl QuakeQuality {
    /// The quality that GeoNet's wire text names, if any.
    pub open spec fn spec_parse(value: Seq<char>) -> Option<QuakeQuality> {
        if value == "best"@ {
            Some(QuakeQuality::Best)
        } else if value == "preliminary"@ {
            Some(QuakeQuality::Preliminary)
        } else if value == "automatic"@ {
            Some(QuakeQuality::Automatic)
        } else if value == "deleted"@ {
            Some(QuakeQuality::Deleted)
        } else {
            None
        }
    }

    /// GeoNet's wire text for the quality (also its display text).
    pub open spec fn spec_as_str(self) -> Seq<char> {
        match self {
            QuakeQuality::Best => "best"@,
            QuakeQuality::Preliminary => "preliminary"@,
            QuakeQuality::Automatic => "automatic"@,
            QuakeQuality::Deleted => "deleted"@,
        }
    }

    /// Parse GeoNet's quality text.
    pub fn parse(value: &str) -> (r: Result<QuakeQuality, QuakeError>)
        ensures
            r is Ok <==> Self::spec_parse(value@) is Some,
            r matches Ok(q) ==> Self::spec_parse(value@) == Some(q),
            r matches Err(e) ==> (e matches QuakeError::UnknownQuality(s) && s@ == value@),
    {
        let text = String::from_str(value);
        if text == String::from_str("best") {
            Ok(QuakeQuality::Best)
        } else if text == String::from_str("preliminary") {
            Ok(QuakeQuality::Preliminary)
        } else if text == String::from_str("automatic") {
            Ok(QuakeQuality::Automatic)
        } else if text == String::from_str("deleted") {
            Ok(QuakeQuality::Deleted)
        } else {
            Err(QuakeError::UnknownQuality(text))
        }
    }

    /// GeoNet's wire text for the quality (its display text).
    pub fn as_str(&self) -> (s: &'static str)
        ensures
            s@ == self.spec_as_str(),
    {
        match self {
            QuakeQuality::Best => "best",
            QuakeQuality::Preliminary => "preliminary",
            QuakeQuality::Automatic => "automatic",
            QuakeQuality::Deleted => "deleted",
        }
    }
}

/// Writing a quality as text and parsing the text gives the quality back.
pub proof fn law_quality_text_round_trip(q: QuakeQuality)
    ensures
        QuakeQuality::spec_parse(q.spec_as_str()) == Some(q),
{
    reveal_strlit("best");
    reveal_strlit("preliminary");
    reveal_strlit("automatic");
    reveal_strlit("deleted");
    assert("best"@ != "preliminary"@ && "best"@ != "automatic"@ && "best"@ != "deleted"@ && "preliminary"@ != "automatic"@ && "preliminary"@ != "deleted"@ && "automatic"@ != "deleted"@) by {
        assert("best"@.len() != "preliminary"@.len());
        assert("best"@.len() != "automatic"@.len());
        assert("best"@[0] != "deleted"@[0]);
        assert("preliminary"@.len() != "automatic"@.len());
        assert("preliminary"@.len() != "deleted"@.len());
        assert("automatic"@.len() != "deleted"@.len());
    }
}

/// GeoNet's four quality words, as they are written on the wire, name the
/// four qualities; letter case matters.
pub proof fn law_quality_wire_words()
    ensures
        QuakeQuality::spec_parse("best"@) == Some(QuakeQuality::Best),
        QuakeQuality::spec_parse("preliminary"@) == Some(QuakeQuality::Preliminary),
        QuakeQuality::spec_parse("automatic"@) == Some(QuakeQuality::Automatic),
        QuakeQuality::spec_parse("deleted"@) == Some(QuakeQuality::Deleted),
        QuakeQuality::spec_parse("Best"@) is None,
        QuakeQuality::spec_parse(Seq::empty()) is None,
{
    reveal_strlit("best");
    reveal_strlit("Best");
    reveal_strlit("preliminary");
    reveal_strlit("automatic");
    reveal_strlit("deleted");
    assert("best"@[0] != "Best"@[0]);
    assert("preliminary"@.len() != "Best"@.len());
    assert("automatic"@.len() != "Best"@.len());
    assert("deleted"@.len() != "Best"@.len());
    assert("best"@.len() != "preliminary"@.len());
    assert("best"@.len() != "automatic"@.len());
    assert("best"@[0] != "deleted"@[0]);
    assert("preliminary"@.len() != "automatic"@.len());
    assert("preliminary"@.len() != "deleted"@.len());
    assert("automatic"@.len() != "deleted"@.len());
}

/// Text that parses as a quality is exactly that quality's wire text.
pub proof fn law_quality_parse_exact(value: Seq<char>, q: QuakeQuality)
    requires
        QuakeQuality::spec_parse(value) == Some(q),
    ensures
        value == q.spec_as_str(),
{
}

// === Quake time ===

/// Nanoseconds in a second.
pub const NANOS_PER_SECOND: i128 = 1_000_000_000;

/// The instants that a `time::OffsetDateTime` can hold: calendar years -9999
/// to 9999, shifted by any UTC offset, in nanoseconds since the Unix epoch
/// (with margin).
pub open spec fn instant_in_range(nanos: int) -> bool {
    -400_000_000_000 * 1_000_000_000 <= nanos <= 300_000_000_000 * 1_000_000_000
}

/// UTC offsets that `time::UtcOffset` can hold (up to 25:59:59 either way),
/// in seconds.
pub open spec fn offset_in_range(seconds: int) -> bool {
    -93599 <= seconds <= 93599
}

/// The instant (nanoseconds since the Unix epoch) and UTC offset (seconds)
/// that the `time` crate reads from ISO-8601 text in its default
/// configuration, or `None` where it rejects the text.
pub uninterp spec fn iso8601_instant(text: Seq<char>) -> Option<(i128, i32)>;

/// Calls `time::OffsetDateTime::parse` with
/// `time::format_description::well_known::Iso8601::DEFAULT`. Trusted: the
/// result is the named parse result of the text, and a parsed date-time lies
/// within the ranges that the `time` crate's types can hold (years -9999 to
/// 9999 without its `large-dates` feature; offsets up to 25:59:59).
#[verifier::external_body]
fn parse_iso8601(text: &str) -> (r: Option<(i128, i32)>)
    ensures
        r == iso8601_instant(text@),
        r matches Some(p) ==> instant_in_range(p.0 as int) && offset_in_range(p.1 as int),
{
    match time::OffsetDateTime::parse(text, &time::format_description::well_known::Iso8601::DEFAULT) {
        Ok(t) => Some((t.unix_timestamp_nanos(), t.offset().whole_seconds())),
        Err(_) => None,
    }
}

/// Calls `time::OffsetDateTime::now_utc`. Trusted: the clock reading is a
/// valid date-time of the `time` crate, in UTC (offset zero). Which instant
/// comes back is not stated: it is the wall clock.
#[verifier::external_body]
fn now_utc_instant() -> (r: (i128, i32))
    ensures
        instant_in_range(r.0 as int),
        r.1 == 0,
{
    let t = time::OffsetDateTime::now_utc();
    (t.unix_timestamp_nanos(), t.offset().whole_seconds())
}

/// Whole seconds from `earlier` to `later` (nanosecond instants), truncated
/// toward zero, as `time::Duration::whole_seconds` gives them.
pub open spec fn whole_seconds_between(earlier: int, later: int) -> int {
    let d = later - earlier;
    if d >= 0 {
        d / 1_000_000_000
    } else {
        -((-d) / 1_000_000_000)
    }
}

/// An age in whole seconds is the elapsed time truncated toward zero: it has
/// the sign of the elapsed time, and it is within one second of it.
pub proof fn law_whole_seconds_truncate(earlier: int, later: int)
    ensures
        ({
            let w = whole_seconds_between(earlier, later);
            let d = later - earlier;
            &&& d >= 0 ==> 0 <= w * 1_000_000_000 <= d < (w + 1) * 1_000_000_000
            &&& d < 0 ==> (w - 1) * 1_000_000_000 < d <= w * 1_000_000_000 <= 0
        }),
{
}

/// A parsed earthquake timestamp: an instant and the UTC offset it was
/// written in.
#[derive(Debug, Clone, Copy)]
pub struct QuakeTime {
    unix_nanos: i128,
    offset_seconds: i32,
}

impl QuakeTime {
    #[verifier::type_invariant]
    spec fn representable(self) -> bool {
        instant_in_range(self.unix_nanos as int) && offset_in_range(self.offset_seconds as int)
    }

    /// Nanoseconds since the Unix epoch.
    pub closed spec fn spec_nanos(self) -> i128 {
        self.unix_nanos
    }

    /// The UTC offset the timestamp was written in, in seconds.
    pub closed spec fn spec_offset(self) -> i32 {
        self.offset_seconds
    }

    /// Build a timestamp from the `time` crate's reading of `value`
    /// (`parsed`): the reading if there is one and it is representable, else
    /// the error naming `value`.
    pub fn from_parsed(value: &str, parsed: Option<(i128, i32)>) -> (r: Result<QuakeTime, QuakeError>)
        ensures
            r is Ok <==> (parsed matches Some(p) && instant_in_range(p.0 as int) && offset_in_range(
                p.1 as int,
            )),
            r matches Ok(t) ==> parsed == Some((t.spec_nanos(), t.spec_offset())),
            r matches Err(e) ==> (e matches QuakeError::InvalidTimestamp(s) && s@ == value@),
    {
        match parsed {
            Some((nanos, offset)) => {
                if -400_000_000_000 * NANOS_PER_SECOND <= nanos && nanos <= 300_000_000_000
                    * NANOS_PER_SECOND && -93599 <= offset && offset <= 93599 {
                    Ok(QuakeTime { unix_nanos: nanos, offset_seconds: offset })
                } else {
                    Err(QuakeError::InvalidTimestamp(String::from_str(value)))
                }
            },
            None => Err(QuakeError::InvalidTimestamp(String::from_str(value))),
        }
    }

    /// Parse an ISO-8601 timestamp as GeoNet emits it.
    pub fn parse(value: &str) -> (r: Result<QuakeTime, QuakeError>)
        ensures
            r is Ok <==> iso8601_instant(value@) is Some,
            r matches Ok(t) ==> iso8601_instant(value@) == Some((t.spec_nanos(), t.spec_offset())),
            r matches Err(e) ==> (e matches QuakeError::InvalidTimestamp(s) && s@ == value@),
    {
        let parsed = parse_iso8601(value);
        Self::from_parsed(value, parsed)
    }

    /// The current time, in UTC.
    pub fn now() -> (t: QuakeTime)
        ensures
            t.spec_offset() == 0,
    {
        let (nanos, offset) = now_utc_instant();
        QuakeTime { unix_nanos: nanos, offset_seconds: offset }
    }

    /// Nanoseconds since the Unix epoch.
    pub fn unix_timestamp_nanos(&self) -> (r: i128)
        ensures
            r == self.spec_nanos(),
            instant_in_range(r as int),
    {
        proof {
            use_type_invariant(self);
        }
        self.unix_nanos
    }

    /// The UTC offset the timestamp was written in, in seconds.
    pub fn offset_seconds(&self) -> (r: i32)
        ensures
            r == self.spec_offset(),
            offset_in_range(r as int),
    {
        proof {
            use_type_invariant(self);
        }
        self.offset_seconds
    }

    /// Age of this timestamp at `now`, in whole seconds (negative for a
    /// timestamp after `now`).
    pub fn age_seconds_at(&self, now: &QuakeTime) -> (r: i64)
        ensures
            r as int == whole_seconds_between(self.spec_nanos() as int, now.spec_nanos() as int),
    {
        proof {
            use_type_invariant(self);
            use_type_invariant(now);
        }
        let d: i128 = now.unix_nanos - self.unix_nanos;
        if d >= 0 {
            (d / NANOS_PER_SECOND) as i64
        } else {
            (0 - ((0 - d) / NANOS_PER_SECOND)) as i64
        }
    }

    /// The day band this timestamp falls in at `now`.
    pub fn day_band_at(&self, now: &QuakeTime) -> (b: DayBand)
        ensures
            b == DayBand::spec_from_age_seconds(
                whole_seconds_between(self.spec_nanos() as int, now.spec_nanos() as int),
            ),
    {
        DayBand::from_age_seconds(self.age_seconds_at(now))
    }
}

} // verus!
