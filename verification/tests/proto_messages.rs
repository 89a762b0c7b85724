use edge_sync::proto::{
    Event, Events, Interval, MacAddress, Measurement, MeasurementEntry, PlantProfile, SyncState,
    Timestamp, WateringEntry,
};
use edge_sync::proto::Event_;
use edge_sync::proto::PlantProfile_::_Hazzer;

#[test]
fn test_interval_accessors() {
    let mut iv = Interval::default();
    assert_eq!(*iv.start(), 0);
    iv.set_start(-5).set_end(40);
    assert_eq!(*iv.start(), -5);
    assert_eq!(*iv.end(), 40);
    *iv.mut_start() = 7;
    assert_eq!(iv.start, 7);
    let built = Interval::default().init_start(1).init_end(2);
    assert_eq!(built, Interval { start: 1, end: 2 });
}

#[test]
fn test_timestamp_accessors() {
    let mut ts = Timestamp::default();
    ts.set_timestamp(1234);
    assert_eq!(*ts.timestamp(), 1234);
    *ts.mut_timestamp() = 99;
    assert_eq!(ts, Timestamp::default().init_timestamp(99));
}

#[test]
fn test_plant_profile_presence_tracking() {
    let mut profile = PlantProfile::default();
    assert!(profile.light_lux().is_none());

    profile.set_light_lux(Interval { start: 100, end: 2000 });
    assert_eq!(profile.light_lux(), Some(&Interval { start: 100, end: 2000 }));
    assert!(profile.temperature().is_none());

    // Mutating through the optional reference.
    if let Some(iv) = profile.mut_light_lux() {
        iv.start = 150;
    }
    assert_eq!(profile.light_lux().unwrap().start, 150);

    // Take returns the value, clears presence and resets the field.
    let taken = profile.take_light_lux();
    assert_eq!(taken, Some(Interval { start: 150, end: 2000 }));
    assert!(profile.light_lux().is_none());
    assert_eq!(profile.light_lux, Interval::default());

    // Clearing an absent field is harmless.
    profile.clear_soil_ec();
    assert!(profile.soil_ec().is_none());

    let built = PlantProfile::default().init_humidity(Interval { start: 30, end: 60 });
    assert_eq!(built.humidity(), Some(&Interval { start: 30, end: 60 }));
}

#[test]
fn test_plant_profile_hazzer() {
    let mut has = _Hazzer::_new();
    assert!(!has.light_mmol());
    has.set_light_mmol().set_soil_ec();
    assert!(has.light_mmol());
    assert!(has.soil_ec());
    assert!(!has.temperature());
    has.clear_light_mmol();
    assert!(!has.light_mmol());
    let built = _Hazzer::_new().init_humidity();
    assert!(built.humidity());
}

#[test]
fn test_measurement_entry_fields() {
    let mut entry = MeasurementEntry::default();
    assert!(entry.measurement().is_none());
    entry
        .set_start(Timestamp::default().init_timestamp(10))
        .set_end(Timestamp::default().init_timestamp(20))
        .set_measurement(Measurement::default().init_battery(55));
    assert_eq!(entry.start().unwrap().timestamp, 10);
    assert_eq!(entry.end().unwrap().timestamp, 20);
    assert_eq!(entry.measurement().unwrap().battery, 55);
    let taken = entry.take_start();
    assert_eq!(taken, Some(Timestamp { timestamp: 10 }));
    assert!(entry.start().is_none());
}

#[test]
fn test_watering_entry_fields() {
    let mut entry = WateringEntry::default();
    entry.set_occurred_at(Timestamp::default().init_timestamp(77));
    entry.set_duration_msec(1500);
    assert_eq!(entry.occurred_at().unwrap().timestamp, 77);
    assert_eq!(*entry.duration_msec(), 1500);
    *entry.mut_duration_msec() = 2000;
    assert_eq!(entry.duration_msec, 2000);
}

#[test]
fn test_events_hold_both_kinds() {
    let measurement = MeasurementEntry::default()
        .init_measurement(Measurement::default().init_battery(80));
    let watering = WateringEntry::default()
        .init_occurred_at(Timestamp::default().init_timestamp(5));
    let events = Events {
        events: vec![
            Event { event: Some(Event_::Event::Measurement(measurement)) },
            Event { event: Some(Event_::Event::Watering(watering)) },
            Event { event: None },
        ],
    };
    assert_eq!(events.events.len(), 3);
    match &events.events[0].event {
        Some(Event_::Event::Measurement(m)) => {
            assert_eq!(m.measurement().unwrap().battery, 80)
        },
        _ => panic!("Expected a measurement event"),
    }
}

#[test]
fn test_mac_address_accessors() {
    let mut mac = MacAddress::default();
    assert!(mac.mac_address().is_empty());
    mac.set_mac_address(vec![1, 2, 3, 4, 5, 6]);
    assert_eq!(mac.mac_address(), &vec![1, 2, 3, 4, 5, 6]);
    mac.mut_mac_address().pop();
    assert_eq!(mac.mac_address().len(), 5);
    let built = MacAddress::default().init_mac_address(vec![9, 9]);
    assert_eq!(built.mac_address, vec![9, 9]);
}

#[test]
fn test_sync_state_codes() {
    assert_eq!(SyncState::ready(), SyncState(0));
    assert_eq!(SyncState::in_progress(), SyncState(1));
    assert_eq!(SyncState::done(), SyncState(2));
    assert_eq!(SyncState::default(), SyncState::ready());
    assert_eq!(SyncState::from(2), SyncState::done());
}

#[test]
fn test_proto_measurement_bits() {
    let mut m = Measurement::default();
    m.set_lux(1234.5f32.to_bits()).set_temperature(21.25f32.to_bits());
    assert_eq!(f32::from_bits(*m.lux()), 1234.5);
    assert_eq!(f32::from_bits(*m.temperature()), 21.25);
}
