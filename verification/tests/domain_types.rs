use waybar_nzquake::domain::error::QuakeError;
use waybar_nzquake::domain::types::{
    CompassDirection, DayBand, DepthRange, LatitudeRange, LocalMmiRange, LongitudeRange,
    MagnitudeRange, Mmi, MmiRange, QuakeQuality, QuakeTime, RangeValidated,
};

#[test]
fn test_zero_cost_abstractions() {
    assert_eq!(std::mem::size_of::<Mmi>(), std::mem::size_of::<i32>());
}

#[test]
fn test_mmi_range() {
    assert!(Mmi::new(6).is_ok());
    assert!(Mmi::new(-1).is_err());
    assert!(Mmi::new(13).is_err());
}

#[test]
fn test_quake_quality_parse() {
    assert_eq!(QuakeQuality::parse("best").unwrap(), QuakeQuality::Best);
    assert_eq!(
        QuakeQuality::parse("deleted").unwrap(),
        QuakeQuality::Deleted
    );
    assert!(QuakeQuality::parse("unknown").is_err());
}

#[test]
fn test_compass_direction_from_bearing() {
    let sector = |bearing: f64| ((bearing + 22.5) / 45.0) as usize;
    assert_eq!(CompassDirection::from_sector(sector(0.0)), CompassDirection::N);
    assert_eq!(CompassDirection::from_sector(sector(90.0)), CompassDirection::E);
    assert_eq!(CompassDirection::from_sector(sector(180.0)), CompassDirection::S);
    assert_eq!(CompassDirection::from_sector(sector(270.0)), CompassDirection::W);
}

#[test]
fn test_day_band_from_age_days() {
    let seconds = |age_days: f64| (age_days * 86400.0) as i64;
    assert_eq!(DayBand::from_age_seconds(seconds(0.5)), DayBand::Today);
    assert_eq!(DayBand::from_age_seconds(seconds(1.5)), DayBand::OneToTwoDays);
    assert_eq!(DayBand::from_age_seconds(seconds(3.0)), DayBand::TwoToFourDays);
    assert_eq!(DayBand::from_age_seconds(seconds(6.0)), DayBand::FourToEightDays);
    assert_eq!(DayBand::from_age_seconds(seconds(12.0)), DayBand::EightToSixteenDays);
    assert_eq!(
        DayBand::from_age_seconds(seconds(30.0)),
        DayBand::SixteenToThirtyTwoDays
    );
}

#[test]
fn test_day_band_ordering() {
    assert!(DayBand::Today < DayBand::OneToTwoDays);
    assert!(DayBand::EightToSixteenDays < DayBand::SixteenToThirtyTwoDays);
}

#[test]
fn test_quake_time_parse_and_age() {
    let time = QuakeTime::parse("2020-01-01T00:00:00.000Z").unwrap();
    assert!(time.age_seconds_at(&QuakeTime::now()) > 0);
    assert!(QuakeTime::parse("not-a-time").is_err());
}

#[test]
fn day_band_edges_fall_on_whole_days() {
    assert_eq!(DayBand::from_age_seconds(86399), DayBand::Today);
    assert_eq!(DayBand::from_age_seconds(86400), DayBand::OneToTwoDays);
    assert_eq!(DayBand::from_age_seconds(-5), DayBand::Today);
    assert_eq!(DayBand::from_age_seconds(16 * 86400 - 1), DayBand::EightToSixteenDays);
    assert_eq!(DayBand::from_age_seconds(100 * 86400), DayBand::SixteenToThirtyTwoDays);
    assert_eq!(DayBand::SixteenToThirtyTwoDays.rank(), 5);
}

#[test]
fn compass_wraps_every_eight_sectors() {
    assert_eq!(CompassDirection::from_sector(8), CompassDirection::N);
    assert_eq!(CompassDirection::from_sector(13), CompassDirection::Sw);
    assert_eq!(CompassDirection::Nw.as_str(), "NW");
    assert_eq!(CompassDirection::Se.as_str(), "SE");
}

#[test]
fn quality_text_round_trips() {
    for q in [
        QuakeQuality::Best,
        QuakeQuality::Preliminary,
        QuakeQuality::Automatic,
        QuakeQuality::Deleted,
    ] {
        assert_eq!(QuakeQuality::parse(q.as_str()).unwrap(), q);
    }
    match QuakeQuality::parse("Best") {
        Err(QuakeError::UnknownQuality(s)) => assert_eq!(s, "Best"),
        other => panic!("unexpected {:?}", other),
    }
}

#[test]
fn mmi_error_names_value_and_bounds() {
    match Mmi::new(13) {
        Err(e) => {
            assert_eq!(e.message(), "Value 13 MMI is outside valid range (0 to 12)");
        }
        Ok(_) => panic!("13 is out of range"),
    }
    assert_eq!(Mmi::new(12).unwrap().value(), 12);
    assert_eq!(Mmi::new(0).unwrap().value(), 0);
}

#[test]
fn range_bounds_and_units() {
    assert_eq!((MagnitudeRange::min(), MagnitudeRange::max()), (-3, 10));
    assert_eq!((DepthRange::min(), DepthRange::max()), (0, 700));
    assert_eq!((MmiRange::min(), MmiRange::max()), (0, 12));
    assert_eq!((LocalMmiRange::min(), LocalMmiRange::max()), (0, 12));
    assert_eq!((LatitudeRange::min(), LatitudeRange::max()), (-90, 90));
    assert_eq!((LongitudeRange::min(), LongitudeRange::max()), (-180, 180));
    assert_eq!(LatitudeRange::unit(), "°");
    assert_eq!(LocalMmiRange::unit(), "MMI (local)");
    let e = MagnitudeRange::out_of_range("10.1".to_string());
    assert_eq!(
        e.message(),
        "Value 10.1 magnitude is outside valid range (-3 to 10)"
    );
    assert!(LatitudeRange::validate(-91).is_err());
    assert!(LongitudeRange::validate(180).is_ok());
}

#[test]
fn error_messages() {
    assert_eq!(
        QuakeError::UnknownQuality("caution".to_string()).message(),
        "Unknown quake quality: caution"
    );
    assert_eq!(
        QuakeError::InvalidTimestamp("x".to_string()).message(),
        "Invalid timestamp: x"
    );
}

#[test]
fn quake_time_keeps_instant_and_offset() {
    let t = QuakeTime::parse("2024-01-13T14:30:00.000Z").unwrap();
    assert_eq!(t.unix_timestamp_nanos(), 1_705_156_200_000_000_000);
    assert_eq!(t.offset_seconds(), 0);
    let shifted = QuakeTime::parse("2024-01-13T16:30:00.000+02:00").unwrap();
    assert_eq!(shifted.unix_timestamp_nanos(), t.unix_timestamp_nanos());
    assert_eq!(shifted.offset_seconds(), 7200);
    let later = QuakeTime::parse("2024-01-14T14:30:00.500Z").unwrap();
    assert_eq!(t.age_seconds_at(&later), 86400);
    assert_eq!(later.age_seconds_at(&t), -86400);
    assert_eq!(t.day_band_at(&later), DayBand::OneToTwoDays);
    match QuakeTime::parse("yesterday") {
        Err(QuakeError::InvalidTimestamp(s)) => assert_eq!(s, "yesterday"),
        other => panic!("unexpected {:?}", other.map(|t| t.unix_timestamp_nanos())),
    }
    assert!(QuakeTime::from_parsed("x", Some((0, 0))).is_ok());
    assert!(QuakeTime::from_parsed("x", Some((0, 100_000))).is_err());
    assert!(QuakeTime::from_parsed("x", None).is_err());
}
