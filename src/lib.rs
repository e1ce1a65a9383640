//! USB HID boot-protocol keyboard emulation: text is translated character by
//! character into key-press and key-release input reports.

pub mod composite;
pub mod descriptors;
pub mod hid_keyboard;
pub mod layout;
pub mod report;

pub use composite::CompositeDevice;
pub use hid_keyboard::HidKeyboard;
pub use layout::char_to_hid;
pub use report::HidReport;
