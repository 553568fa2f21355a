use waybar_nzquake::domain::types::{CompassDirection, DayBand, Mmi, QuakeQuality, QuakeTime};
use waybar_nzquake::infra::display::clock::{current_stamp, format_time, format_time_at, stamp_at};
use waybar_nzquake::infra::display::formatting::{
    day_band_header, format_quality, format_timestamp_footer, geonet_mmi_aside, timestamp_footer_at,
};
use waybar_nzquake::infra::display::waybar::{
    format_earthquake_line, QuakeDisplay, QuakeSummary, WaybarFormatter,
};

fn at(text: &str) -> QuakeTime {
    QuakeTime::parse(text).unwrap()
}

fn sample_quake(mmi: Option<Mmi>) -> QuakeSummary {
    QuakeSummary {
        time: at("2024-01-13T14:30:00.000Z"),
        magnitude: format!("{:.1}", 5.2f64),
        local_mmi: format!("{:.1}", 4.2f64),
        depth: format!("{:.1}", 12.0f64),
        distance: format!("{:.0}", 0.0f64),
        direction: CompassDirection::N,
        quality: QuakeQuality::Best,
        geonet_mmi: mmi,
        highlight: true,
    }
}

/// Shown in UTC+13 (New Zealand daylight time), a day and a half after
/// the sample quake.
fn data(quakes: Vec<QuakeSummary>) -> QuakeDisplay {
    QuakeDisplay {
        quakes,
        now: at("2024-01-15T02:30:00.000Z"),
        local_offset: Some(13 * 3600),
    }
}

#[test]
fn test_day_band_header() {
    assert_eq!(day_band_header(DayBand::Today), "⏰ Last 24 hours:");
    assert!(day_band_header(DayBand::SixteenToThirtyTwoDays).contains("8+ days ago"));
}

#[test]
fn test_format_quality_hides_best() {
    assert_eq!(format_quality(QuakeQuality::Best), "");
    assert!(format_quality(QuakeQuality::Automatic).contains("automatic"));
}

#[test]
fn headers_of_bands_past_eight_days() {
    assert_eq!(day_band_header(DayBand::EightToSixteenDays), "\n⏰ 8+ days ago:");
    assert_eq!(day_band_header(DayBand::SixteenToThirtyTwoDays), "\n⏰ 8+ days ago:");
    assert_eq!(day_band_header(DayBand::FourToEightDays), "\n⏰ 4-8 days ago:");
}

#[test]
fn test_empty_earthquakes_output() {
    let output = WaybarFormatter::new().format(&data(vec![]));
    assert!(output.text.contains("No recent earthquakes"));
    assert!(output.tooltip.contains("No recent earthquakes recorded"));
}

#[test]
fn test_display_text_with_earthquake() {
    let output = WaybarFormatter::new().format(&data(vec![sample_quake(None)]));
    assert!(output.text.contains("M5.2"));
    assert!(output.text.contains("MMI4.2"));
    assert!(output.text.contains("1 quakes"));
}

#[test]
fn test_tooltip_shows_local_mmi_and_omits_geonet_mmi_when_absent() {
    let output = WaybarFormatter::new().format(&data(vec![sample_quake(None)]));
    assert!(output.tooltip.contains("MMI 4.2 local"));
    assert!(!output.tooltip.contains("GeoNet:"));
}

#[test]
fn test_tooltip_shows_geonet_mmi_as_aside_when_present() {
    let output = WaybarFormatter::new().format(&data(vec![sample_quake(Mmi::new(6).ok())]));
    assert!(output.tooltip.contains("MMI 4.2 local (GeoNet: MMI6)"));
}

#[test]
fn test_error_output_formatting() {
    let error_output = WaybarFormatter::create_error_output("Test error");
    assert!(error_output.text.contains("unavailable"));
    assert!(error_output.tooltip.contains("Test error"));
}

#[test]
fn test_error_handling_flow() {
    let error_output = WaybarFormatter::create_error_output("Test error");
    assert!(error_output.text.contains("unavailable"));
    assert!(error_output.tooltip.contains("Test error"));
    assert!(error_output.tooltip.contains("Last attempt: "));
}

#[test]
fn error_output_is_exact() {
    let out = WaybarFormatter::error_output_at("boom", "2024-01-14 04:00");
    assert_eq!(out.text, "🌍 -- Earthquake data unavailable");
    assert_eq!(
        out.tooltip,
        "Unable to fetch earthquake data\n\nError: boom\nService: GeoNet API\n\nLast attempt: 2024-01-14 04:00"
    );
}

#[test]
fn display_text_is_exact() {
    let mut q = sample_quake(None);
    q.distance = "369".to_string();
    q.direction = CompassDirection::Sw;
    let out = WaybarFormatter::new().format(&data(vec![q, sample_quake(None)]));
    assert_eq!(out.text, "🌍 M5.2 MMI4.2 369km SW (2 quakes)");
}

#[test]
fn earthquake_line_is_exact() {
    let mut q = sample_quake(Mmi::new(3).ok());
    q.quality = QuakeQuality::Preliminary;
    q.distance = "24".to_string();
    q.direction = CompassDirection::Se;
    assert_eq!(
        format_earthquake_line(&q, Some(13 * 3600)),
        "  📅 2024-01-14 03:30:00 | M5.2 | MMI 4.2 local (GeoNet: MMI3) | 📏 12.0km | 🎯 preliminary | SE 24km"
    );
    assert_eq!(geonet_mmi_aside(None), "");
    assert_eq!(timestamp_footer_at("now"), "\n\n🕐 Updated: now");
    assert!(format_timestamp_footer().starts_with("\n\n🕐 Updated: "));
}

#[test]
fn tooltip_groups_by_band_and_highlights() {
    let mut a = sample_quake(None);
    a.time = at("2024-01-15T01:00:00.000Z");
    a.highlight = false;
    let mut b = sample_quake(None);
    b.time = at("2024-01-15T02:00:00.000Z");
    b.highlight = true;
    let mut c = sample_quake(None);
    c.highlight = false;
    let line_a = format_earthquake_line(&a, Some(13 * 3600));
    let line_b = format_earthquake_line(&b, Some(13 * 3600));
    let line_c = format_earthquake_line(&c, Some(13 * 3600));
    assert!(line_a.contains("2024-01-15 14:00:00"));
    let out = WaybarFormatter::new().format(&data(vec![a, b, c]));
    let expected = [
        "Recent NZ Earthquakes (by day band):\n".to_string(),
        "⏰ Last 24 hours:".to_string(),
        line_a,
        format!("<span foreground=\"#00FF00\">{}</span>", line_b),
        "\n⏰ 1-2 days ago:".to_string(),
        line_c,
        "\n\n🕐 Updated: 2024-01-15 15:30".to_string(),
    ]
    .join("\n");
    assert_eq!(out.tooltip, expected);
}

#[test]
fn bar_text_leads_with_the_latest_quake() {
    let mut older = sample_quake(None);
    older.time = at("2024-01-15T01:00:00.000Z");
    older.magnitude = "4.1".to_string();
    let mut latest = sample_quake(None);
    latest.time = at("2024-01-15T02:00:00.000Z");
    latest.magnitude = "3.3".to_string();
    let out = WaybarFormatter::new().format(&data(vec![older, latest]));
    assert!(out.text.starts_with("🌍 M3.3 "));
    assert!(out.text.ends_with("(2 quakes)"));
}

#[test]
fn quake_times_shown_in_a_given_offset() {
    let t = QuakeTime::parse("2024-01-13T14:30:00.000Z").unwrap();
    assert_eq!(format_time_at(&t, Some(0)), "2024-01-13 14:30:00");
    assert_eq!(format_time_at(&t, None), "2024-01-13 14:30:00");
    assert_eq!(format_time_at(&t, Some(13 * 3600)), "2024-01-14 03:30:00");
    assert_eq!(stamp_at(&t, Some(13 * 3600)), "2024-01-14 03:30");
    assert_eq!(format_time(&t).len(), "2024-01-13 14:30:00".len());
    assert_eq!(current_stamp().len(), "2024-01-13 14:30".len());
}
