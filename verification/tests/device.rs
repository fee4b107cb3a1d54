use ble_ledly::device::led_device::LedDevice;
use ble_ledly::device::{
    uuid_from_u16, uuid_from_u32, CharKind, Characteristic, OpKind, Peripheral, UuidKind,
    BT_BASE_UUID,
};
use ble_ledly::error::BluetoothError;

fn strip_peripheral() -> Peripheral {
    Peripheral {
        address: String::from("AA:BB:CC:DD:EE:FF"),
        characteristics: vec![
            Characteristic { uuid: uuid_from_u16(0xFFD4), properties: 0x02 },
            Characteristic {
                uuid: uuid_from_u16(0xFFD9),
                properties: OpKind::Write.bit() | OpKind::WriteWithoutResponse.bit(),
            },
            Characteristic {
                uuid: uuid_from_u16(0xFFD9),
                properties: OpKind::Read.bit(),
            },
        ],
    }
}

#[test]
fn resolver_places_short_form_in_high_bits() {
    assert_eq!(
        uuid_from_u32(0x12345678),
        0x12345678_0000_1000_8000_00805f9b34fb_u128
    );
    assert_eq!(uuid_from_u32(0), BT_BASE_UUID);
}

#[test]
fn resolver_zero_extends_sixteen_bit_forms() {
    assert_eq!(uuid_from_u16(0xFFD9), uuid_from_u32(0xFFD9));
    assert_eq!(
        uuid_from_u16(0xFFD9),
        0x0000FFD9_0000_1000_8000_00805f9b34fb_u128
    );
}

#[test]
fn op_kind_bits_are_powers_of_two() {
    assert_eq!(OpKind::Broadcast.bit(), 0x01);
    assert_eq!(OpKind::Read.bit(), 0x02);
    assert_eq!(OpKind::WriteWithoutResponse.bit(), 0x04);
    assert_eq!(OpKind::Write.bit(), 0x08);
    assert_eq!(OpKind::Notify.bit(), 0x10);
    assert_eq!(OpKind::Indicate.bit(), 0x20);
    assert_eq!(OpKind::AuthenticatedSignedWrites.bit(), 0x40);
    assert_eq!(OpKind::ExtendedProperties.bit(), 0x80);
    assert_eq!(OpKind::Write.bit() | OpKind::WriteWithoutResponse.bit(), 0x0C);
}

#[test]
fn new_device_keeps_identity_and_characteristics() {
    let device = LedDevice::new("QHM-1234", "desk strip", Some(strip_peripheral()), None, None);
    assert_eq!(device.name(), "QHM-1234");
    assert_eq!(device.alias(), "desk strip");
    assert_eq!(device.address().unwrap(), "AA:BB:CC:DD:EE:FF");
    assert!(device.write_char().is_none());
    assert!(device.read_char().is_none());
    assert_eq!(device.characteristics().unwrap().len(), 3);
}

#[test]
fn setters_replace_each_field() {
    let mut device = LedDevice::new("QHM-1234", "strip", None, None, None);
    assert!(device.address().is_none());
    assert!(device.peripheral().is_none());
    device.set_alias("bedroom");
    assert_eq!(device.alias(), "bedroom");
    device.set_name("QHM-5678");
    assert_eq!(device.name(), "QHM-5678");
    device.set_peripheral(strip_peripheral());
    assert!(device.peripheral().is_some());
    let target = Characteristic { uuid: uuid_from_u16(0xFFD9), properties: 0x0C };
    device.set_write_char(&target);
    assert_eq!(device.write_char().unwrap(), &target);
}

#[test]
fn filter_requires_exact_flag_byte() {
    let filter = OpKind::Write.bit() | OpKind::WriteWithoutResponse.bit();
    let superset = filter | OpKind::Notify.bit();
    let device = LedDevice::new(
        "QHM-1234",
        "strip",
        Some(Peripheral {
            address: String::from("AA:BB:CC:DD:EE:FF"),
            characteristics: vec![
                Characteristic { uuid: 1, properties: superset },
                Characteristic { uuid: 2, properties: filter },
                Characteristic { uuid: 3, properties: OpKind::Write.bit() },
            ],
        }),
        None,
        None,
    );
    let matching = device.characteristics_by_type(filter).unwrap();
    assert_eq!(matching.len(), 1);
    assert_eq!(matching[0].uuid, 2);
}

#[test]
fn filter_without_peripheral_is_none() {
    let device = LedDevice::new("QHM-1234", "strip", None, None, None);
    assert!(device.characteristics().is_none());
    assert!(device.characteristics_by_type(0x0C).is_none());
}

#[test]
fn set_char_with_u16_assigns_first_match() {
    let mut device = LedDevice::new("QHM-1234", "strip", Some(strip_peripheral()), None, None);
    device.set_char(&CharKind::Write, &UuidKind::Uuid16(0xFFD9)).unwrap();
    let assigned = device.write_char().unwrap();
    assert_eq!(assigned.uuid, uuid_from_u16(0xFFD9));
    assert_eq!(
        assigned.properties,
        OpKind::Write.bit() | OpKind::WriteWithoutResponse.bit()
    );
}

#[test]
fn set_char_accepts_every_identifier_form() {
    let canonical = uuid_from_u16(0xFFD9);
    let forms = [
        UuidKind::Uuid16(0xFFD9),
        UuidKind::Uuid32(0xFFD9),
        UuidKind::Uuid(canonical),
        UuidKind::Uuid128(canonical),
    ];
    for form in forms {
        let mut device = LedDevice::new("QHM-1234", "strip", Some(strip_peripheral()), None, None);
        device.set_char(&CharKind::Write, &form).unwrap();
        assert_eq!(device.write_char().unwrap().uuid, canonical);
    }
}

#[test]
fn set_char_without_peripheral_reports_invalid_reference() {
    let mut device = LedDevice::new("QHM-1234", "strip", None, None, None);
    let r = device.set_char(&CharKind::Write, &UuidKind::Uuid16(0xFFD9));
    assert!(matches!(r, Err(BluetoothError::InvalidPeripheralReference)));
}

#[test]
fn set_char_without_match_reports_not_found() {
    let mut device = LedDevice::new("QHM-1234", "strip", Some(strip_peripheral()), None, None);
    let r = device.set_char(&CharKind::Write, &UuidKind::Uuid16(0xAAAA));
    assert!(matches!(r, Err(BluetoothError::NotFoundTargetCharacteristic)));
    assert!(device.write_char().is_none());
}

#[test]
fn set_char_with_kind_assigns_first_exact_match() {
    let filter = OpKind::Write.bit() | OpKind::WriteWithoutResponse.bit();
    let mut device = LedDevice::new("QHM-1234", "strip", Some(strip_peripheral()), None, None);
    device.set_char_with_kind(&CharKind::Write, filter).unwrap();
    assert_eq!(device.write_char().unwrap().uuid, uuid_from_u16(0xFFD9));
    assert_eq!(device.write_char().unwrap().properties, filter);
}

#[test]
fn set_char_with_kind_rejects_superset_flags() {
    let filter = OpKind::Write.bit() | OpKind::WriteWithoutResponse.bit();
    let mut device = LedDevice::new(
        "QHM-1234",
        "strip",
        Some(Peripheral {
            address: String::from("AA:BB:CC:DD:EE:FF"),
            characteristics: vec![Characteristic {
                uuid: 1,
                properties: filter | OpKind::Notify.bit(),
            }],
        }),
        None,
        None,
    );
    let r = device.set_char_with_kind(&CharKind::Write, filter);
    assert!(matches!(r, Err(BluetoothError::NotFoundTargetCharacteristic)));
    assert!(device.write_char().is_none());
}

#[test]
fn write_target_reports_each_missing_piece() {
    let unconnected = LedDevice::new("QHM-1234", "strip", None, None, None);
    assert!(matches!(
        unconnected.write_target(),
        Err(BluetoothError::InvalidPeripheralReference)
    ));
    let unassigned = LedDevice::new("QHM-1234", "strip", Some(strip_peripheral()), None, None);
    assert!(matches!(
        unassigned.write_target(),
        Err(BluetoothError::InvalidCharacteristic)
    ));
    let mut ready = LedDevice::new("QHM-1234", "strip", Some(strip_peripheral()), None, None);
    ready.set_char(&CharKind::Write, &UuidKind::Uuid16(0xFFD9)).unwrap();
    assert_eq!(ready.write_target().unwrap().uuid, uuid_from_u16(0xFFD9));
}
