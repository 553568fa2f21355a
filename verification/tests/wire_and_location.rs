use waybar_nzquake::domain::error::QuakeError;
use waybar_nzquake::domain::types::{QuakeQuality, QuakeTime};
use waybar_nzquake::infra::api::models::{is_deleted_quality, mmi_from_wire};
use waybar_nzquake::location::split_location;

#[test]
fn test_quake_feature_parsing() {
    let time = QuakeTime::parse("2024-01-13T14:30:00.000Z");
    assert!(time.is_ok());
    assert_eq!(QuakeQuality::parse("best").unwrap(), QuakeQuality::Best);
    assert_eq!(mmi_from_wire(Some(4)).unwrap().unwrap().value(), 4);
}

#[test]
fn test_quake_feature_mmi_not_felt_sentinel_becomes_none() {
    assert!(mmi_from_wire(Some(-1)).unwrap().is_none());
}

#[test]
fn test_quake_feature_without_mmi() {
    assert!(mmi_from_wire(None).unwrap().is_none());
}

#[test]
fn test_quake_feature_unknown_quality_rejected() {
    assert!(QuakeQuality::parse("caution").is_err());
}

#[test]
fn wire_mmi_out_of_range_is_an_error() {
    match mmi_from_wire(Some(-2)) {
        Err(e) => assert_eq!(e.message(), "Value -2 MMI is outside valid range (0 to 12)"),
        Ok(_) => panic!("-2 is not the sentinel"),
    }
    assert!(matches!(mmi_from_wire(Some(13)), Err(QuakeError::OutOfRange { .. })));
    assert_eq!(mmi_from_wire(Some(0)).unwrap().unwrap().value(), 0);
}

#[test]
fn deleted_marker() {
    assert!(is_deleted_quality("deleted"));
    assert!(!is_deleted_quality("best"));
    assert!(!is_deleted_quality("Deleted"));
}

#[test]
fn test_parse_location() {
    let (lat, lon) = split_location("-41.2865,174.7762").unwrap();
    assert_eq!((lat.as_str(), lon.as_str()), ("-41.2865", "174.7762"));
    let (lat, lon) = split_location("-41.2865, 174.7762").unwrap();
    assert_eq!((lat.as_str(), lon.as_str()), ("-41.2865", " 174.7762"));
    assert!(split_location("invalid").is_err());
    assert!(split_location("-41.2865").is_err());
}

#[test]
fn location_format_error_quotes_argument() {
    assert_eq!(
        split_location("1,2,3").unwrap_err(),
        "Invalid location format. Expected 'latitude,longitude', got '1,2,3'"
    );
    let (a, b) = split_location(",").unwrap();
    assert_eq!((a.as_str(), b.as_str()), ("", ""));
}
