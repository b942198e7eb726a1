use utility_contracts::address::Address;
use utility_contracts::multi_sensor::{
    add_sensor, aggregation_is_defined, record_consumption, remove_sensor, validate_invariants,
    MasterStream, SensorError,
};

fn account() -> Address {
    Address::new("GACCOUNT".to_string())
}

fn mac(n: u32) -> String {
    format!("00:1A:2B:3C:4D:{:02X}", n)
}

fn stream_with(macs: &[u32], balance: i128) -> MasterStream {
    let mut s = add_sensor(None, account(), mac(macs[0]));
    for m in &macs[1..] {
        s = add_sensor(Some(s), account(), mac(*m));
    }
    s.balance = balance;
    s
}

#[test]
fn adding_sensors_creates_stream() {
    let s = add_sensor(None, account(), mac(1));
    assert_eq!(s.account, account());
    assert_eq!(s.balance, 0);
    assert_eq!(s.sensors.len(), 1);
    let s = add_sensor(Some(s), account(), mac(2));
    let s = add_sensor(Some(s), account(), mac(1));
    assert_eq!(s.sensors.len(), 2);
}

#[test]
fn consumption_debits_total_of_latest_payloads() {
    let s = stream_with(&[1, 2, 3], 1_000);
    let (s, total) = record_consumption(Some(s), mac(2), 40).unwrap();
    assert_eq!(total, 40);
    assert_eq!(s.balance, 960);
    let (s, total) = record_consumption(Some(s), mac(3), 15).unwrap();
    assert_eq!(total, 55);
    assert_eq!(s.balance, 905);
    // a new payload replaces the sensor's previous one
    let (s, total) = record_consumption(Some(s), mac(2), 10).unwrap();
    assert_eq!(total, 25);
    assert_eq!(s.balance, 880);
}

#[test]
fn re_adding_resets_payload() {
    let s = stream_with(&[1, 2], 100);
    let (s, _) = record_consumption(Some(s), mac(1), 30).unwrap();
    let s = add_sensor(Some(s), account(), mac(1));
    let (s, total) = record_consumption(Some(s), mac(2), 5).unwrap();
    assert_eq!(total, 5);
    assert_eq!(s.balance, 100 - 30 - 5);
}

#[test]
fn unknown_sensor_or_stream_is_refused() {
    let s = stream_with(&[1], 100);
    assert_eq!(
        record_consumption(Some(s), mac(9), 1).err(),
        Some(SensorError::SensorNotRegistered)
    );
    assert_eq!(record_consumption(None, mac(1), 1).err(), Some(SensorError::StreamNotFound));
    assert_eq!(remove_sensor(None, &mac(1)).err(), Some(SensorError::StreamNotFound));
}

#[test]
fn removed_sensor_no_longer_counts() {
    let s = stream_with(&[1, 2], 100);
    let (s, _) = record_consumption(Some(s), mac(1), 30).unwrap();
    let s = remove_sensor(Some(s), &mac(1)).unwrap();
    assert_eq!(s.sensors.len(), 1);
    assert_eq!(
        record_consumption(Some(s), mac(1), 3).err(),
        Some(SensorError::SensorNotRegistered)
    );
    let s = stream_with(&[1, 2], 100);
    let s = remove_sensor(Some(s), &mac(7)).unwrap();
    assert_eq!(s.sensors.len(), 2);
}

#[test]
fn invariants_are_checked() {
    assert_eq!(validate_invariants(&None), Err(SensorError::StreamNotFound));
    let ten: Vec<u32> = (0..10).collect();
    assert_eq!(validate_invariants(&Some(stream_with(&ten, 0))), Ok(()));
    let eleven: Vec<u32> = (0..11).collect();
    assert_eq!(
        validate_invariants(&Some(stream_with(&eleven, 0))),
        Err(SensorError::TooManySensors)
    );
    assert_eq!(
        validate_invariants(&Some(stream_with(&eleven, -1))),
        Err(SensorError::BalanceInvariantViolated)
    );
}

#[test]
fn aggregation_overflow_is_detected() {
    let s = stream_with(&[1, 2], i128::MAX);
    let (s, total) = record_consumption(Some(s), mac(1), i128::MAX).unwrap();
    assert_eq!(total, i128::MAX);
    assert_eq!(s.balance, 0);
    let stored = Some(s);
    assert!(!aggregation_is_defined(&stored, &mac(2), 1));
    assert!(aggregation_is_defined(&stored, &mac(2), -1));
    assert!(aggregation_is_defined(&stored, &mac(9), 1));
    assert!(aggregation_is_defined(&None, &mac(1), 1));
}
