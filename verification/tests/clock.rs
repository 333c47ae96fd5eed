use auth::clock::{Timestamp, NANOS_PER_SECOND};

#[test]
fn nanos_per_second_is_a_billion() {
    assert_eq!(NANOS_PER_SECOND, 1_000_000_000);
}

#[test]
fn nanos_since_epoch_counts_both_parts() {
    assert_eq!(Timestamp { seconds: 0, nanos: 0 }.nanos_since_epoch(), 0);
    assert_eq!(Timestamp { seconds: 1, nanos: 5 }.nanos_since_epoch(), 1_000_000_005);
    assert_eq!(
        Timestamp { seconds: 1_700_000_000, nanos: 999_999_999 }.nanos_since_epoch(),
        1_700_000_000_999_999_999
    );
}

#[test]
fn nanos_since_epoch_before_the_epoch() {
    assert_eq!(Timestamp { seconds: -1, nanos: 999_999_999 }.nanos_since_epoch(), -1);
    assert_eq!(Timestamp { seconds: -2, nanos: 0 }.nanos_since_epoch(), -2_000_000_000);
}

#[test]
fn nanos_since_epoch_at_the_ends_of_the_range() {
    assert_eq!(
        Timestamp { seconds: i64::MAX, nanos: i32::MAX }.nanos_since_epoch(),
        i64::MAX as i128 * 1_000_000_000 + i32::MAX as i128
    );
    assert_eq!(
        Timestamp { seconds: i64::MIN, nanos: i32::MIN }.nanos_since_epoch(),
        i64::MIN as i128 * 1_000_000_000 + i32::MIN as i128
    );
}

#[test]
fn plus_seconds_moves_the_whole_seconds_only() {
    let start = Timestamp { seconds: 1_000, nanos: 5 };
    assert_eq!(start.checked_plus_seconds(60), Some(Timestamp { seconds: 1_060, nanos: 5 }));
    assert_eq!(start.checked_plus_seconds(0), Some(start));
    let early = Timestamp { seconds: -30, nanos: 999_999_999 };
    assert_eq!(early.checked_plus_seconds(60), Some(Timestamp { seconds: 30, nanos: 999_999_999 }));
}

#[test]
fn plus_seconds_stops_where_the_seconds_no_longer_fit() {
    let last = Timestamp { seconds: i64::MAX - 60, nanos: 1 };
    assert_eq!(last.checked_plus_seconds(60), Some(Timestamp { seconds: i64::MAX, nanos: 1 }));
    let late = Timestamp { seconds: i64::MAX - 59, nanos: 1 };
    assert_eq!(late.checked_plus_seconds(60), None);
    assert_eq!(Timestamp { seconds: 0, nanos: 0 }.checked_plus_seconds(u64::MAX), None);
    assert_eq!(
        Timestamp { seconds: i64::MIN, nanos: 0 }.checked_plus_seconds(u64::MAX),
        Some(Timestamp { seconds: i64::MAX, nanos: 0 })
    );
}
