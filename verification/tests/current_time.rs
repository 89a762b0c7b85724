use edge_sync::time::{AdjustReason, CurrentTime, DayOfWeek};

#[test]
fn test_encode_decode_roundtrip() {
    let ct = CurrentTime {
        year: 2025,
        month: 6,
        day: 9,
        hour: 15,
        minute: 42,
        second: 30,
        day_of_week: DayOfWeek::Monday,
        fractions256: 0,
        adjust_reason: AdjustReason::manual_time_update(),
    };

    let bytes = ct.to_bytes();
    let decoded = CurrentTime::from_bytes(&bytes);
    assert_eq!(ct, decoded);
}

#[test]
fn test_encoding_matches_expected_bytes() {
    let ct = CurrentTime {
        year: 2025,
        month: 6,
        day: 9,
        hour: 15,
        minute: 42,
        second: 30,
        day_of_week: DayOfWeek::Monday,
        fractions256: 0,
        adjust_reason: AdjustReason::manual_time_update(),
    };

    let expected: [u8; 10] = [0xE9, 0x07, 0x06, 0x09, 0x0F, 0x2A, 0x1E, 0x01, 0x00, 0x01];
    assert_eq!(ct.to_bytes(), expected);
}

#[test]
fn test_adjust_reason_multiple_flags() {
    let ct = CurrentTime {
        year: 2025,
        month: 12,
        day: 31,
        hour: 23,
        minute: 59,
        second: 59,
        day_of_week: DayOfWeek::Sunday,
        fractions256: 255,
        adjust_reason: AdjustReason::manual_time_update()
            .union(AdjustReason::dst_change())
            .union(AdjustReason::external_reference()),
    };

    let bytes = ct.to_bytes();
    assert_eq!(bytes[9], 0x0B); // 0000_1011

    let decoded = CurrentTime::from_bytes(&bytes);
    assert!(decoded.adjust_reason.contains(AdjustReason::manual_time_update()));
    assert!(decoded.adjust_reason.contains(AdjustReason::dst_change()));
    assert!(decoded.adjust_reason.contains(AdjustReason::external_reference()));
    assert!(!decoded.adjust_reason.contains(AdjustReason::timezone_change()));
}

#[test]
fn test_day_of_week_unknown_handling() {
    let mut bytes = [0u8; 10];
    bytes[7] = 42; // invalid day
    let decoded = CurrentTime::from_bytes(&bytes);
    assert_eq!(decoded.day_of_week, DayOfWeek::Unknown);
}

#[test]
fn test_unix_timestamp_basic() {
    let ct = CurrentTime {
        year: 1970,
        month: 1,
        day: 1,
        hour: 0,
        minute: 0,
        second: 0,
        day_of_week: DayOfWeek::Thursday,
        fractions256: 0,
        adjust_reason: AdjustReason::empty(),
    };

    let (secs, nanos) = ct.to_unix_timestamp().unwrap();
    assert_eq!(secs, 0);
    assert_eq!(nanos, 0);
}

#[test]
fn test_unix_timestamp_half_second() {
    let ct = CurrentTime {
        year: 2025,
        month: 6,
        day: 9,
        hour: 15,
        minute: 42,
        second: 30,
        day_of_week: DayOfWeek::Monday,
        fractions256: 128, // 0.5 seconds
        adjust_reason: AdjustReason::manual_time_update(),
    };

    let (secs, nanos) = ct.to_unix_timestamp().unwrap();
    assert_eq!(secs, 1749483750);
    assert_eq!(nanos, 500_000_000);
}

#[test]
fn test_unix_timestamp_invalid_date() {
    let ct = CurrentTime {
        year: 2025,
        month: 2,
        day: 30, // invalid date
        hour: 0,
        minute: 0,
        second: 0,
        day_of_week: DayOfWeek::Unknown,
        fractions256: 0,
        adjust_reason: AdjustReason::empty(),
    };

    assert_eq!(ct.to_unix_timestamp(), None);
}

#[test]
fn test_leap_year_feb_29() {
    let ct = CurrentTime {
        year: 2024,
        month: 2,
        day: 29,
        hour: 12,
        minute: 0,
        second: 0,
        day_of_week: DayOfWeek::Thursday,
        fractions256: 0,
        adjust_reason: AdjustReason::empty(),
    };

    let (secs, _) = ct.to_unix_timestamp().unwrap();
    assert_eq!(secs, 1709208000);
}

#[test]
fn test_from_unix_timestamp_basic() {
    let ct = CurrentTime::from_unix_timestamp(1749483750).unwrap();
    assert_eq!(ct.year, 2025);
    assert_eq!(ct.month, 6);
    assert_eq!(ct.day, 9);
    assert_eq!(ct.hour, 15);
    assert_eq!(ct.minute, 42);
    assert_eq!(ct.second, 30);
    assert_eq!(ct.day_of_week, DayOfWeek::Monday);
    assert_eq!(ct.fractions256, 0);
    assert_eq!(ct.adjust_reason, AdjustReason::empty());
}

#[test]
fn test_from_unix_timestamp_epoch() {
    let ct = CurrentTime::from_unix_timestamp(0).unwrap();
    assert_eq!(ct.year, 1970);
    assert_eq!(ct.month, 1);
    assert_eq!(ct.day, 1);
    assert_eq!(ct.hour, 0);
    assert_eq!(ct.minute, 0);
    assert_eq!(ct.second, 0);
    assert_eq!(ct.day_of_week, DayOfWeek::Thursday);
    assert_eq!(ct.fractions256, 0);
    assert_eq!(ct.adjust_reason, AdjustReason::empty());
}

#[test]
fn test_from_unix_timestamp_leap_year() {
    let ct = CurrentTime::from_unix_timestamp(1709208000).unwrap();
    assert_eq!(ct.year, 2024);
    assert_eq!(ct.month, 2);
    assert_eq!(ct.day, 29);
    assert_eq!(ct.hour, 12);
    assert_eq!(ct.minute, 0);
    assert_eq!(ct.second, 0);
    assert_eq!(ct.day_of_week, DayOfWeek::Thursday);
    assert_eq!(ct.fractions256, 0);
    assert_eq!(ct.adjust_reason, AdjustReason::empty());
}

#[test]
fn test_from_unix_timestamp_negative_is_none() {
    assert!(CurrentTime::from_unix_timestamp(-1).is_none());
}

#[test]
fn test_from_bytes_never_fails_on_any_buffer() {
    // Decoding is total: reserved adjust bits are dropped and any
    // day-of-week code outside 1..=7 turns into the unknown day.
    let bytes: [u8; 10] = [0xFF, 0xFF, 0xFF, 0xFF, 0xFF, 0xFF, 0xFF, 0xFF, 0xFF, 0xFF];
    let decoded = CurrentTime::from_bytes(&bytes);
    assert_eq!(decoded.year, 0xFFFF);
    assert_eq!(decoded.day_of_week, DayOfWeek::Unknown);
    assert_eq!(decoded.adjust_reason.bits(), 0x0F);
}

#[test]
fn test_unix_epoch_constructor() {
    let epoch = CurrentTime::unix_epoch();
    assert_eq!(epoch.year, 1970);
    assert_eq!(epoch.day_of_week, DayOfWeek::Thursday);
    assert_eq!(epoch.to_unix_timestamp().unwrap(), (0, 0));
}

#[test]
fn test_date_to_days_since_epoch_values() {
    assert_eq!(edge_sync::time::date_to_days_since_epoch(1970, 1, 1), Some(0));
    assert_eq!(edge_sync::time::date_to_days_since_epoch(1970, 1, 2), Some(1));
    assert_eq!(edge_sync::time::date_to_days_since_epoch(2024, 2, 29), Some(19782));
    assert_eq!(edge_sync::time::date_to_days_since_epoch(1969, 12, 31), None);
    assert_eq!(edge_sync::time::date_to_days_since_epoch(2024, 13, 1), None);
}

#[test]
fn test_is_leap_year_rules() {
    assert!(edge_sync::time::is_leap_year(2024));
    assert!(!edge_sync::time::is_leap_year(2023));
    assert!(!edge_sync::time::is_leap_year(1900));
    assert!(edge_sync::time::is_leap_year(2000));
}
