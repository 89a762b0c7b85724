use edge_sync::time::{AdjustReason, CurrentTime, DayOfWeek};

#[test]
fn lib_test_encode_decode_roundtrip() {
    let ct = CurrentTime {
        year: 2025,
        month: 6,
        day: 9,
        hour: 15,
        minute: 42,
        second: 30,
        day_of_week: DayOfWeek::Monday,
        fractions256: 0,
        adjust_reason: AdjustReason::manual_time_update(),
    };

    let bytes = ct.to_bytes();
    let decoded = CurrentTime::from_bytes(&bytes);
    assert_eq!(ct, decoded);
}

#[test]
fn lib_test_encoding_matches_expected_bytes() {
    let ct = CurrentTime {
        year: 2025,
        month: 6,
        day: 9,
        hour: 15,
        minute: 42,
        second: 30,
        day_of_week: DayOfWeek::Monday,
        fractions256: 0,
        adjust_reason: AdjustReason::manual_time_update(),
    };

    let expected: [u8; 10] = [0xE9, 0x07, 0x06, 0x09, 0x0F, 0x2A, 0x1E, 0x01, 0x00, 0x01];
    assert_eq!(ct.to_bytes(), expected);
}

#[test]
fn lib_test_adjust_reason_multiple_flags() {
    let ct = CurrentTime {
        year: 2025,
        month: 12,
        day: 31,
        hour: 23,
        minute: 59,
        second: 59,
        day_of_week: DayOfWeek::Sunday,
        fractions256: 255,
        adjust_reason: AdjustReason::manual_time_update()
            .union(AdjustReason::dst_change())
            .union(AdjustReason::external_reference()),
    };

    let bytes = ct.to_bytes();
    assert_eq!(bytes[9], 0x0B); // 0000_1011

    let decoded = CurrentTime::from_bytes(&bytes);
    assert!(decoded.adjust_reason.contains(AdjustReason::manual_time_update()));
    assert!(decoded.adjust_reason.contains(AdjustReason::dst_change()));
    assert!(decoded.adjust_reason.contains(AdjustReason::external_reference()));
    assert!(!decoded.adjust_reason.contains(AdjustReason::timezone_change()));
}

#[test]
fn lib_test_day_of_week_unknown_handling() {
    let mut bytes = [0u8; 10];
    bytes[7] = 42; // invalid day
    let decoded = CurrentTime::from_bytes(&bytes);
    assert_eq!(decoded.day_of_week, DayOfWeek::Unknown);
}
