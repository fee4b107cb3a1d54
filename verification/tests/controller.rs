use ble_ledly::controller::{contains_str, name_matches, set_all_char};
use ble_ledly::device::led_device::LedDevice;
use ble_ledly::device::{uuid_from_u16, CharKind, Characteristic, Peripheral, UuidKind};
use ble_ledly::error::BluetoothError;

fn device_with(uuids: &[u128]) -> LedDevice {
    LedDevice::new(
        "QHM-1234",
        "strip",
        Some(Peripheral {
            address: String::from("AA:BB:CC:DD:EE:FF"),
            characteristics: uuids
                .iter()
                .map(|&uuid| Characteristic { uuid, properties: 0x0C })
                .collect(),
        }),
        None,
        None,
    )
}

#[test]
fn contains_str_finds_inner_pattern() {
    assert!(contains_str("QHM-1234", "QHM-"));
    assert!(contains_str("QHM-1234", "1234"));
    assert!(contains_str("QHM-1234", "M-12"));
    assert!(!contains_str("QHM-1234", "LEDnet"));
}

#[test]
fn contains_str_empty_pattern_always_matches() {
    assert!(contains_str("QHM-1234", ""));
    assert!(contains_str("", ""));
}

#[test]
fn contains_str_pattern_longer_than_text_never_matches() {
    assert!(!contains_str("QHM", "QHM-1234"));
}

#[test]
fn name_matches_without_prefix_accepts_everything() {
    assert!(name_matches("anything", &None));
    assert!(name_matches("", &None));
}

#[test]
fn name_matches_with_prefix_filters() {
    let prefix = Some(String::from("QHM-"));
    assert!(name_matches("QHM-1234", &prefix));
    assert!(!name_matches("Lamp-1", &prefix));
}

#[test]
fn set_all_char_assigns_every_device() {
    let target = uuid_from_u16(0xFFD9);
    let mut devices = vec![device_with(&[7, target]), device_with(&[target])];
    set_all_char(&mut devices, &CharKind::Write, &UuidKind::Uuid16(0xFFD9)).unwrap();
    for device in &devices {
        assert_eq!(device.write_char().unwrap().uuid, target);
    }
}

#[test]
fn set_all_char_stops_at_first_failing_device() {
    let target = uuid_from_u16(0xFFD9);
    let mut devices = vec![
        device_with(&[target]),
        device_with(&[7]),
        device_with(&[target]),
    ];
    let r = set_all_char(&mut devices, &CharKind::Write, &UuidKind::Uuid16(0xFFD9));
    assert!(matches!(r, Err(BluetoothError::NotFoundTargetCharacteristic)));
    assert!(devices[0].write_char().is_some());
    assert!(devices[1].write_char().is_none());
    assert!(devices[2].write_char().is_none());
}

#[test]
fn set_all_char_reports_missing_peripheral() {
    let mut devices = vec![LedDevice::new("QHM-1234", "strip", None, None, None)];
    let r = set_all_char(&mut devices, &CharKind::Write, &UuidKind::Uuid16(0xFFD9));
    assert!(matches!(r, Err(BluetoothError::InvalidPeripheralReference)));
}
