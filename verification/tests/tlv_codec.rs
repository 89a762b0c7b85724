use edge_sync::entry::MeasurementSerieEntry;
use edge_sync::measurement::{Measurement, TlvError};

#[test]
fn test_measurement_tlv_encode_decode() {
    let measurement = Measurement {
        battery: 85,
        lux: 1234.56f32.to_bits(),
        temperature: 23.5f32.to_bits(),
        humidity: 45.2f32.to_bits(),
        soil_pf: 0.0f32.to_bits(),
    };

    let tlv_data = measurement.to_tlv();
    let decoded = Measurement::from_tlv(&tlv_data).unwrap();

    assert_eq!(measurement.battery, decoded.battery);
    assert!((f32::from_bits(measurement.lux) - f32::from_bits(decoded.lux)).abs() < f32::EPSILON);
    assert!(
        (f32::from_bits(measurement.temperature) - f32::from_bits(decoded.temperature)).abs()
            < f32::EPSILON
    );
    assert!(
        (f32::from_bits(measurement.humidity) - f32::from_bits(decoded.humidity)).abs()
            < f32::EPSILON
    );
    assert_eq!(measurement.soil_pf, decoded.soil_pf);
}

#[test]
fn test_measurement_tlv_invalid_data() {
    // Incomplete data: a header whose value is missing.
    let result = Measurement::from_tlv(&[1, 1]);
    assert!(result.is_err());

    // An unknown tag is skipped, not an error: the lenient decode
    // ignores foreign records and leaves every known field at zero.
    let result = Measurement::from_tlv(&[99, 1, 0]);
    assert_eq!(
        result,
        Ok(Measurement { battery: 0, lux: 0, temperature: 0, humidity: 0, soil_pf: 0 })
    );

    // Wrong length for battery.
    let result = Measurement::from_tlv(&[1, 2, 0, 0]);
    assert!(result.is_err());
}

#[test]
fn test_measurement_tlv_empty() {
    let measurement = Measurement {
        battery: 0,
        lux: 0.0f32.to_bits(),
        temperature: 0.0f32.to_bits(),
        humidity: 0.0f32.to_bits(),
        soil_pf: 0.0f32.to_bits(),
    };

    let tlv_data = measurement.to_tlv();
    let decoded = Measurement::from_tlv(&tlv_data).unwrap();

    assert_eq!(measurement.battery, decoded.battery);
    assert_eq!(measurement.lux, decoded.lux);
    assert_eq!(measurement.temperature, decoded.temperature);
    assert_eq!(measurement.humidity, decoded.humidity);
    assert_eq!(measurement.soil_pf, decoded.soil_pf);
}

#[test]
fn test_measurement_serie_entry_tlv_encode_decode() {
    let measurement = Measurement {
        battery: 75,
        lux: 987.65f32.to_bits(),
        temperature: 18.3f32.to_bits(),
        humidity: 62.1f32.to_bits(),
        soil_pf: 0.0f32.to_bits(),
    };

    let entry = MeasurementSerieEntry {
        timestamp: 1640995200, // 2022-01-01 00:00:00
        measurement,
    };

    let tlv_data = entry.to_tlv();
    let decoded = MeasurementSerieEntry::from_tlv(&tlv_data).unwrap();

    assert_eq!(entry.timestamp, decoded.timestamp);
    assert_eq!(entry.measurement.battery, decoded.measurement.battery);
    assert!(
        (f32::from_bits(entry.measurement.lux) - f32::from_bits(decoded.measurement.lux)).abs()
            < f32::EPSILON
    );
    assert!(
        (f32::from_bits(entry.measurement.temperature)
            - f32::from_bits(decoded.measurement.temperature))
        .abs()
            < f32::EPSILON
    );
    assert!(
        (f32::from_bits(entry.measurement.humidity)
            - f32::from_bits(decoded.measurement.humidity))
        .abs()
            < f32::EPSILON
    );
}

#[test]
fn test_measurement_serie_entry_tlv_invalid_data() {
    // Incomplete data: the timestamp value is missing.
    let result = MeasurementSerieEntry::from_tlv(&[1, 8]);
    assert!(result.is_err());

    // A timestamp alone: the measurement record is missing.
    let mut incomplete_data = [0u8; 10];
    incomplete_data[0] = 1; // Type: timestamp
    incomplete_data[1] = 8; // Length: 8
    let result = MeasurementSerieEntry::from_tlv(&incomplete_data);
    assert!(result.is_err());

    // An unknown top-level tag: the strict decode refuses it.
    let result = MeasurementSerieEntry::from_tlv(&[99, 1, 0]);
    assert!(result.is_err());

    // Wrong timestamp length.
    let result = MeasurementSerieEntry::from_tlv(&[1, 4, 0, 0, 0, 0]);
    assert!(result.is_err());
}

#[test]
fn test_measurement_serie_entry_tlv_empty_values() {
    let measurement = Measurement {
        battery: 0,
        lux: 0.0f32.to_bits(),
        temperature: 0.0f32.to_bits(),
        humidity: 0.0f32.to_bits(),
        soil_pf: 0.0f32.to_bits(),
    };

    let entry = MeasurementSerieEntry {
        timestamp: 0, // Unix epoch
        measurement,
    };

    let tlv_data = entry.to_tlv();
    let decoded = MeasurementSerieEntry::from_tlv(&tlv_data).unwrap();

    assert_eq!(entry.timestamp, decoded.timestamp);
    assert_eq!(entry.measurement.battery, decoded.measurement.battery);
    assert_eq!(entry.measurement.lux, decoded.measurement.lux);
    assert_eq!(entry.measurement.temperature, decoded.measurement.temperature);
    assert_eq!(entry.measurement.humidity, decoded.measurement.humidity);
}

#[test]
fn test_measurement_roundtrip_bit_exact() {
    // The codec carries the analog channels as raw bit patterns, so
    // every finite value survives bit for bit, extremes included.
    let measurement = Measurement {
        battery: 100,
        lux: f32::MAX.to_bits(),
        temperature: (-0.0f32).to_bits(),
        humidity: f32::MIN_POSITIVE.to_bits(),
        soil_pf: (-123.456f32).to_bits(),
    };

    let decoded = Measurement::from_tlv(&measurement.to_tlv()).unwrap();
    assert_eq!(measurement, decoded);
}

#[test]
fn test_measurement_records_in_any_order() {
    // The lenient decode accepts records in any order.
    let m = Measurement {
        battery: 7,
        lux: 1.5f32.to_bits(),
        temperature: 2.5f32.to_bits(),
        humidity: 3.5f32.to_bits(),
        soil_pf: 4.5f32.to_bits(),
    };
    let canonical = m.to_tlv();
    let mut reordered = Vec::new();
    // soil_pf record first, then the rest in canonical order.
    reordered.extend_from_slice(&canonical[21..27]);
    reordered.extend_from_slice(&canonical[0..21]);
    let decoded = Measurement::from_tlv(&reordered).unwrap();
    assert_eq!(m, decoded);
}

#[test]
fn test_measurement_missing_field_defaults_to_zero() {
    // Only a battery record: every other field comes back zero.
    let decoded = Measurement::from_tlv(&[1, 1, 42]).unwrap();
    assert_eq!(decoded.battery, 42);
    assert_eq!(decoded.lux, 0);
    assert_eq!(decoded.temperature, 0);
    assert_eq!(decoded.humidity, 0);
    assert_eq!(decoded.soil_pf, 0);
}

#[test]
fn test_entry_error_variants() {
    // Only a measurement record: the timestamp is missing.
    let mut only_measurement = Vec::new();
    only_measurement.push(2);
    only_measurement.push(3);
    only_measurement.extend_from_slice(&[1, 1, 50]);
    assert_eq!(
        MeasurementSerieEntry::from_tlv(&only_measurement),
        Err(TlvError::MissingTimestamp)
    );

    // Only a timestamp record: the measurement is missing.
    let mut only_timestamp = [0u8; 10];
    only_timestamp[0] = 1;
    only_timestamp[1] = 8;
    assert_eq!(
        MeasurementSerieEntry::from_tlv(&only_timestamp),
        Err(TlvError::MissingMeasurement)
    );

    // A foreign top-level tag.
    assert_eq!(MeasurementSerieEntry::from_tlv(&[9, 0]), Err(TlvError::UnknownTag));

    // A truncated record.
    assert_eq!(MeasurementSerieEntry::from_tlv(&[1]), Err(TlvError::MalformedRecord));

    // A nested measurement that does not parse.
    let mut bad_nested = Vec::new();
    bad_nested.extend_from_slice(&only_timestamp);
    bad_nested.push(2);
    bad_nested.push(2);
    bad_nested.extend_from_slice(&[1, 9]); // battery record with absurd length
    assert_eq!(MeasurementSerieEntry::from_tlv(&bad_nested), Err(TlvError::MalformedRecord));
}

#[test]
fn test_entry_canonical_length() {
    let entry = MeasurementSerieEntry {
        timestamp: -1, // negative instants are carried two's-complement
        measurement: Measurement {
            battery: 1,
            lux: 2,
            temperature: 3,
            humidity: 4,
            soil_pf: 5,
        },
    };
    let tlv = entry.to_tlv();
    assert_eq!(tlv.len(), 39);
    let decoded = MeasurementSerieEntry::from_tlv(&tlv).unwrap();
    assert_eq!(decoded.timestamp, -1);
    assert_eq!(decoded.measurement, entry.measurement);
}
