use ble_ledly::capability::{light, LightOption};
use ble_ledly::communication_protocol::GenericRGB;
use ble_ledly::device::led_device::LedDevice;

#[test]
fn light_entry_point_succeeds() {
    let device = LedDevice::new("QHM-1234", "strip", None, None, None);
    assert!(light(device, GenericRGB {}).is_ok());
}

#[test]
fn light_options_cover_on_and_off() {
    assert_ne!(LightOption::On, LightOption::Off);
    assert_eq!(LightOption::On, LightOption::On);
}
