use waybar_nzquake::domain::models::{retention_order, RetentionKey, MAX_RETAINED_AGE_SECONDS};
use waybar_nzquake::domain::types::QuakeQuality;

const DAY: f64 = 86400.0;

/// A quake `age_days` old; `significant` says whether its local MMI clears
/// the retention floor.
fn key(quality: QuakeQuality, age_days: f64, significant: bool) -> RetentionKey {
    RetentionKey {
        quality,
        age_seconds: (age_days * DAY) as i64,
        below_local_mmi_floor: !significant,
    }
}

#[test]
fn test_score_and_filter_drops_deleted() {
    let keys = vec![
        key(QuakeQuality::Best, 0.0, true),
        key(QuakeQuality::Deleted, 0.0, true),
    ];
    let order = retention_order(&keys);
    assert_eq!(order.len(), 1);
    assert_eq!(keys[order[0]].quality, QuakeQuality::Best);
}

#[test]
fn test_score_and_filter_no_longer_filters_on_magnitude_alone() {
    // A small, very close quake (M2.5, 10 km deep, right under the user)
    // still has a local MMI of about 4.1, over the floor: it is kept, with
    // no flat magnitude floor.
    let keys = vec![key(QuakeQuality::Best, 0.0, true)];
    assert_eq!(retention_order(&keys).len(), 1);
}

#[test]
fn test_score_and_filter_has_no_count_cap() {
    let keys: Vec<_> = (0..20).map(|_| key(QuakeQuality::Best, 0.0, true)).collect();
    assert_eq!(retention_order(&keys).len(), 20);
}

#[test]
fn test_score_and_filter_has_no_backfill_floor() {
    let keys: Vec<_> = (0..12).map(|_| key(QuakeQuality::Best, 0.0, false)).collect();
    assert!(retention_order(&keys).is_empty());
}

#[test]
fn test_score_and_filter_drops_quakes_below_local_mmi_floor() {
    let keys = vec![key(QuakeQuality::Best, 0.0, false)];
    assert!(retention_order(&keys).is_empty());
}

#[test]
fn test_score_and_filter_drops_quakes_older_than_64_days() {
    let keys = vec![key(QuakeQuality::Best, 70.0, true)];
    assert!(retention_order(&keys).is_empty());
}

#[test]
fn test_score_and_filter_retains_quakes_up_to_64_days_old_if_significant() {
    let keys = vec![key(QuakeQuality::Best, 50.0, true)];
    assert_eq!(retention_order(&keys).len(), 1);
}

#[test]
fn test_score_and_filter_sorts_by_day_band_ascending_most_recent_first() {
    let keys = vec![
        key(QuakeQuality::Best, 10.0, true),
        key(QuakeQuality::Best, 0.5, true),
    ];
    let order = retention_order(&keys);
    assert_eq!(order, vec![1, 0]);
}

#[test]
fn test_score_and_filter_sorts_ascending_by_time_within_a_band() {
    let keys = vec![
        key(QuakeQuality::Best, 0.1, true),
        key(QuakeQuality::Best, 0.8, true),
    ];
    let order = retention_order(&keys);
    assert!(keys[order[0]].age_seconds > keys[order[1]].age_seconds);
}

#[test]
fn retention_window_edge_is_inclusive() {
    let edge = RetentionKey {
        quality: QuakeQuality::Automatic,
        age_seconds: MAX_RETAINED_AGE_SECONDS,
        below_local_mmi_floor: false,
    };
    let past = RetentionKey { age_seconds: MAX_RETAINED_AGE_SECONDS + 1, ..edge };
    assert_eq!(retention_order(&vec![edge, past]), vec![0]);
}

#[test]
fn equal_keys_keep_arrival_order_and_bands_lead() {
    let keys = vec![
        key(QuakeQuality::Best, 3.0, true),        // band 2-4
        key(QuakeQuality::Preliminary, 0.2, true), // today
        key(QuakeQuality::Best, 3.0, true),        // band 2-4, same age
        key(QuakeQuality::Deleted, 0.1, true),     // dropped
        key(QuakeQuality::Automatic, 0.7, true),   // today, older
        key(QuakeQuality::Best, 2.5, true),        // band 2-4, younger
    ];
    assert_eq!(retention_order(&keys), vec![4, 1, 0, 2, 5]);
}

#[test]
fn filtering_again_keeps_the_order() {
    let keys = vec![
        key(QuakeQuality::Best, 9.0, true),
        key(QuakeQuality::Best, 0.3, true),
        key(QuakeQuality::Best, 0.9, false),
        key(QuakeQuality::Best, 1.2, true),
    ];
    let order = retention_order(&keys);
    let kept: Vec<RetentionKey> = order.iter().map(|&i| keys[i]).collect();
    let again = retention_order(&kept);
    assert_eq!(again, (0..kept.len()).collect::<Vec<_>>());
}
