//! The HID report descriptor that the keyboard presents to the host.
use vstd::prelude::*;

verus! {

/// Length of the boot-protocol keyboard report descriptor, in bytes.
pub const DESCRIPTOR_LEN: usize = 45;

/// Boot-protocol keyboard report descriptor: one modifier byte (eight bits for
/// the usages 224 to 231), one reserved byte, and an array of six key bytes
/// with usages 0 to 101. It matches the layout of `HidReport` and is presented
/// verbatim, so that BIOS and UEFI hosts can use the keyboard.
pub const HID_BOOT_KEYBOARD_DESCRIPTOR: [u8; DESCRIPTOR_LEN] = [
    0x05, 0x01, // Usage Page (Generic Desktop)
    0x09, 0x06, // Usage (Keyboard)
    0xA1, 0x01, // Collection (Application)
    0x05, 0x07, //   Usage Page (Key Codes)
    0x19, 0xE0, //   Usage Minimum (224)
    0x29, 0xE7, //   Usage Maximum (231)
    0x15, 0x00, //   Logical Minimum (0)
    0x25, 0x01, //   Logical Maximum (1)
    0x75, 0x01, //   Report Size (1)
    0x95, 0x08, //   Report Count (8)
    0x81, 0x02, //   Input (Data, Variable, Absolute): modifier byte
    0x95, 0x01, //   Report Count (1)
    0x75, 0x08, //   Report Size (8)
    0x81, 0x03, //   Input (Constant): reserved byte
    0x95, 0x06, //   Report Count (6)
    0x75, 0x08, //   Report Size (8)
    0x15, 0x00, //   Logical Minimum (0)
    0x25, 0x65, //   Logical Maximum (101)
    0x05, 0x07, //   Usage Page (Key Codes)
    0x19, 0x00, //   Usage Minimum (0)
    0x29, 0x65, //   Usage Maximum (101)
    0x81, 0x00, //   Input (Data, Array): key slots
    0xC0, // End Collection
];

} // verus!
