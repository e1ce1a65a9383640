use esp32_hid_rs::hid_keyboard::{Action, SendError};
use esp32_hid_rs::{CompositeDevice, HidKeyboard};

#[test]
fn test_composite_device_construction() {
    let composite = CompositeDevice::new(None);
    assert!(composite.hid.is_none());
}

#[test]
fn test_composite_send_string_no_hid() {
    let mut composite = CompositeDevice::new(None);
    let result = composite.send_string("test");
    assert!(result.is_err());
}

#[test]
fn no_interface_fails_with_no_device_and_changes_nothing() {
    let mut composite = CompositeDevice::new(None);
    assert_eq!(composite.send_string("anything"), Err(SendError::NoDeviceAttached));
    assert!(composite.hid.is_none());
}

#[test]
fn present_interface_takes_the_text() {
    let mut composite = CompositeDevice::new(Some(HidKeyboard::new()));
    assert_eq!(composite.send_string("a"), Ok(()));
    let kb = composite.hid.as_ref().unwrap();
    match kb.next_action() {
        Action::Write(r) => assert_eq!(r.bytes, [0, 0, 0x04, 0, 0, 0, 0, 0]),
        other => panic!("unexpected action {:?}", other),
    }
}
