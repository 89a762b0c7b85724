use edge_sync::entry::MeasurementSerieEntry;
use edge_sync::measurement::Measurement;
use edge_sync::session::{
    client_sync, decode_batch, encode_batch, SessionError, SyncServer, BATCH_LEN,
};

fn sample(battery: u8, lux: f32, temperature: f32, humidity: f32, soil_pf: f32) -> Measurement {
    Measurement {
        battery,
        lux: lux.to_bits(),
        temperature: temperature.to_bits(),
        humidity: humidity.to_bits(),
        soil_pf: soil_pf.to_bits(),
    }
}

fn six_entries() -> Vec<MeasurementSerieEntry> {
    (0..6i64)
        .map(|i| MeasurementSerieEntry {
            timestamp: 1640995200 + 100 * i,
            measurement: sample(50, 500.0, 20.0 + i as f32, 40.0, 120.0),
        })
        .collect()
}

#[test]
fn test_session_drift_and_write_read_back() {
    // Node clock 2022-01-01T00:00:00, hub local 2022-01-01T00:10:00:
    // one session measures a drift of 600 seconds, and a node read
    // after the hub's write returns the hub-written value.
    let entries = Vec::new();
    let mut server = SyncServer::new([1, 2, 3, 4, 5, 6], 1640995200, &entries).unwrap();

    let address = server.read_address();
    let time_bytes = server.read_current_time();
    let batch = server.read_measurements().clone();

    let (result, write_back) =
        client_sync(&address, &time_bytes, &batch, 1640995800).unwrap();

    assert_eq!(result.time_drift, 600);
    assert_eq!(result.address, [1, 2, 3, 4, 5, 6]);
    assert_eq!(result.measurements.len(), 0);

    server.write_current_time(&write_back).unwrap();
    let read_back = server.read_current_time();
    assert_eq!(read_back, write_back);
    assert_eq!(server.clock, 1640995800);
}

#[test]
fn test_corrupt_segment_yields_five_entries() {
    // A six-entry blob with entry index 3 corrupted by an altered
    // length byte yields exactly five decoded entries; the session
    // itself does not abort.
    let entries = six_entries();
    let mut blob = encode_batch(&entries);
    assert_eq!(blob.len(), BATCH_LEN);
    blob[3 * 39 + 1] = 9; // timestamp record length 8 -> 9

    let decoded = decode_batch(&blob);
    assert_eq!(decoded.len(), 5);
    for (k, e) in decoded.iter().enumerate() {
        let skip_corrupt = if k >= 3 { k + 1 } else { k };
        assert_eq!(*e, entries[skip_corrupt]);
    }

    let server = SyncServer::new([9, 9, 9, 9, 9, 9], 1640995200, &Vec::new()).unwrap();
    let time_bytes = server.read_current_time();
    let (result, _) = client_sync(&[9, 9, 9, 9, 9, 9], &time_bytes, &blob, 1640995800).unwrap();
    assert_eq!(result.measurements.len(), 5);
}

#[test]
fn test_full_batch_roundtrip() {
    let entries = six_entries();
    let blob = encode_batch(&entries);
    let decoded = decode_batch(&blob);
    assert_eq!(decoded, entries);
}

#[test]
fn test_partial_batch_pads_with_zeros() {
    let entries: Vec<MeasurementSerieEntry> = six_entries().into_iter().take(2).collect();
    let blob = encode_batch(&entries);
    assert_eq!(blob.len(), BATCH_LEN);
    assert!(blob[2 * 39..].iter().all(|b| *b == 0));
    // The zero padding parses as no entry at all.
    let decoded = decode_batch(&blob);
    assert_eq!(decoded, entries);
}

#[test]
fn test_session_error_variants() {
    let entries = Vec::new();
    let server = SyncServer::new([1, 2, 3, 4, 5, 6], 1640995200, &entries).unwrap();
    let address = server.read_address();
    let time_bytes = server.read_current_time();
    let batch = server.read_measurements().clone();

    // A five-byte address attribute.
    assert_eq!(
        client_sync(&address[..5], &time_bytes, &batch, 1640995800).unwrap_err(),
        SessionError::BadAddress
    );

    // A short current-time attribute.
    assert_eq!(
        client_sync(&address, &time_bytes[..9], &batch, 1640995800).unwrap_err(),
        SessionError::BadTime
    );

    // A current-time attribute naming no real date.
    let mut bad_time = time_bytes;
    bad_time[2] = 13; // month 13
    assert_eq!(
        client_sync(&address, &bad_time, &batch, 1640995800).unwrap_err(),
        SessionError::BadTime
    );

    // A hub clock the wire format cannot carry.
    assert_eq!(
        client_sync(&address, &time_bytes, &batch, -5).unwrap_err(),
        SessionError::ClockOutOfRange
    );

    // A measurement blob of the wrong size.
    assert_eq!(
        client_sync(&address, &time_bytes, &batch[..100], 1640995800).unwrap_err(),
        SessionError::BadBatch
    );
}

#[test]
fn test_server_rejects_bad_time_writes() {
    let mut server = SyncServer::new([1, 2, 3, 4, 5, 6], 0, &Vec::new()).unwrap();

    // Too short.
    assert!(server.write_current_time(&[0u8; 9]).is_err());
    assert_eq!(server.clock, 0);

    // Hour out of range.
    let mut bytes = [0u8; 10];
    bytes[0] = 0xE6; // year 2022 little-endian
    bytes[1] = 0x07;
    bytes[2] = 1; // month
    bytes[3] = 1; // day
    bytes[4] = 25; // hour 25
    assert!(server.write_current_time(&bytes).is_err());
    assert_eq!(server.clock, 0);

    // February 30th.
    bytes[4] = 0;
    bytes[2] = 2;
    bytes[3] = 30;
    assert!(server.write_current_time(&bytes).is_err());
    assert_eq!(server.clock, 0);

    // A real instant is adopted immediately.
    bytes[2] = 1;
    bytes[3] = 1;
    bytes[4] = 0;
    server.write_current_time(&bytes).unwrap();
    assert_eq!(server.clock, 1640995200);
}

#[test]
fn test_server_new_refuses_bad_setup() {
    // A negative clock cannot be carried by the wire format.
    assert!(SyncServer::new([0; 6], -1, &Vec::new()).is_none());
    // Seven entries do not fit the six-slot blob.
    let seven: Vec<MeasurementSerieEntry> = (0..7i64)
        .map(|i| MeasurementSerieEntry {
            timestamp: i,
            measurement: sample(0, 0.0, 0.0, 0.0, 0.0),
        })
        .collect();
    assert!(SyncServer::new([0; 6], 0, &seven).is_none());
}

#[test]
fn test_server_batch_is_finalized_at_setup() {
    let entries = six_entries();
    let server = SyncServer::new([1, 1, 1, 1, 1, 1], 1640995200, &entries).unwrap();
    let blob = server.read_measurements();
    assert_eq!(blob.len(), BATCH_LEN);
    assert_eq!(decode_batch(blob), entries);
}
