//! The 8-byte boot-protocol keyboard input report.
use vstd::prelude::*;

verus! {

/// Number of bytes in a boot-protocol keyboard input report.
pub const REPORT_LEN: usize = 8;

/// Bytes of the report that holds `keycode` down with `modifier`: the modifier
/// bitmask, a reserved zero byte, the key in the first of six slots, and the
/// other slots empty.
pub open spec fn press_bytes(modifier: u8, keycode: u8) -> Seq<u8> {
    seq![modifier, 0u8, keycode, 0u8, 0u8, 0u8, 0u8, 0u8]
}

/// Bytes of the report in which no key and no modifier is held.
pub open spec fn release_bytes() -> Seq<u8> {
    Seq::new(8, |i: int| 0u8)
}

/// A boot-protocol keyboard input report: byte 0 is the modifier bitmask,
/// byte 1 is reserved, bytes 2 to 7 hold up to six pressed keys.
#[derive(Clone, Copy, Debug, PartialEq, Eq)]
pub struct HidReport {
    pub bytes: [u8; REPORT_LEN],
}

impl HidReport {
    /// The report that presses the single key `keycode` with `modifier` held.
    pub fn press(modifier: u8, keycode: u8) -> (r: HidReport)
        ensures
            r.bytes@ == press_bytes(modifier, keycode),
    {
        let r = HidReport { bytes: [modifier, 0, keycode, 0, 0, 0, 0, 0] };
        assert(r.bytes@ =~= press_bytes(modifier, keycode));
        r
    }

    /// The all-zero report that releases every key.
    pub fn release() -> (r: HidReport)
        ensures
            r.bytes@ == release_bytes(),
    {
        let r = HidReport { bytes: [0u8; REPORT_LEN] };
        assert(r.bytes@ =~= release_bytes());
        r
    }
}

} // verus!
