//! The composite USB device: the interfaces it offers, each present or absent.
use vstd::prelude::*;
use crate::hid_keyboard::{HidKeyboard, KeyboardView, SendError};

verus! {

/// A composite USB device. Only the HID keyboard interface exists so far.
pub struct CompositeDevice {
    pub hid: Option<HidKeyboard>,
}

impl CompositeDevice {
    pub fn new(hid: Option<HidKeyboard>) -> (r: CompositeDevice)
        ensures
            r.hid == hid,
    {
        CompositeDevice { hid }
    }

    /// Hands `text` to the keyboard interface to be typed. Without a keyboard
    /// interface the call fails with `NoDeviceAttached` and changes nothing.
    pub fn send_string(&mut self, text: &str) -> (r: Result<(), SendError>)
        ensures
            old(self).hid is None ==> r == Err::<(), SendError>(SendError::NoDeviceAttached)
                && *final(self) == *old(self),
            old(self).hid is Some ==> r == Ok::<(), SendError>(()) && (final(self).hid matches Some(
                k,
            ) && k@ == KeyboardView::start(text@) && k@.wf()),
    {
        match self.hid.as_mut() {
            Some(hid) => {
                hid.send_string(text);
                Ok(())
            },
            None => Err(SendError::NoDeviceAttached),
        }
    }
}

} // verus!
