//! USB HID mouse report (boot protocol compatible).

use vstd::prelude::*;

use crate::wire::{byte_of, lemma_signed_byte_roundtrip, signed_of, to_byte, to_signed};

verus! {

/// Mouse report size in bytes.
pub const MOUSE_REPORT_SIZE: usize = 4;

/// Standard USB HID boot-protocol mouse report.
#[derive(Clone, Copy, Debug, PartialEq, Eq)]
pub struct MouseReport {
    /// Button bitfield (bit 0 = left, bit 1 = right, bit 2 = middle).
    pub buttons: u8,
    /// Relative X movement (signed).
    pub x: i8,
    /// Relative Y movement (signed).
    pub y: i8,
    /// Scroll wheel delta (signed).
    pub wheel: i8,
}

impl MouseReport {
    /// The four bytes of the report in wire order.
    pub open spec fn wire(self) -> Seq<u8> {
        seq![self.buttons, byte_of(self.x), byte_of(self.y), byte_of(self.wheel)]
    }

    /// The report carried by the first three or four bytes of `data`; a
    /// three-byte payload has no wheel byte and the wheel reads as zero.
    pub open spec fn parsed(data: Seq<u8>) -> Option<MouseReport> {
        if data.len() < 3 {
            None
        } else {
            Some(
                MouseReport {
                    buttons: data[0],
                    x: signed_of(data[1]),
                    y: signed_of(data[2]),
                    wheel: if data.len() >= 4 {
                        signed_of(data[3])
                    } else {
                        0i8
                    },
                },
            )
        }
    }

    /// Create an idle (no movement, no buttons) report.
    pub fn empty() -> (report: Self)
        ensures
            report == (MouseReport { buttons: 0, x: 0, y: 0, wheel: 0 }),
    {
        Self { buttons: 0, x: 0, y: 0, wheel: 0 }
    }

    /// Parse from raw BLE HID notification bytes.
    ///
    /// Accepts 3-byte (no wheel) or 4-byte (with wheel) reports.
    pub fn from_ble_bytes(data: &[u8]) -> (report: Option<Self>)
        ensures
            report == Self::parsed(data@),
    {
        if data.len() < 3 {
            return None;
        }
        let wheel = if data.len() >= 4 {
            to_signed(data[3])
        } else {
            0
        };
        Some(Self { buttons: data[0], x: to_signed(data[1]), y: to_signed(data[2]), wheel })
    }

    /// Serialise into a byte slice for USB HID transmission.
    ///
    /// Returns the number of bytes written: 4, or 0 when `buf` is too small,
    /// in which case `buf` is left as it was.
    pub fn serialize(&self, buf: &mut [u8]) -> (written: usize)
        ensures
            final(buf)@.len() == old(buf)@.len(),
            old(buf)@.len() < 4 ==> written == 0 && final(buf)@ == old(buf)@,
            old(buf)@.len() >= 4 ==> written == 4 && final(buf)@ == self.wire() + old(buf)@.skip(4),
    {
        if buf.len() < MOUSE_REPORT_SIZE {
            return 0;
        }
        buf[0] = self.buttons;
        buf[1] = to_byte(self.x);
        buf[2] = to_byte(self.y);
        buf[3] = to_byte(self.wheel);
        assert(buf@ =~= self.wire() + old(buf)@.skip(4));
        MOUSE_REPORT_SIZE
    }

    /// Returns `true` when no buttons are pressed and there is no movement.
    pub fn is_idle(&self) -> (idle: bool)
        ensures
            idle == (self.buttons == 0 && self.x == 0 && self.y == 0 && self.wheel == 0),
    {
        self.buttons == 0 && self.x == 0 && self.y == 0 && self.wheel == 0
    }
}

impl Default for MouseReport {
    fn default() -> (report: Self)
        ensures
            report == (MouseReport { buttons: 0, x: 0, y: 0, wheel: 0 }),
    {
        Self { buttons: 0, x: 0, y: 0, wheel: 0 }
    }
}

/// Serialising a mouse report always yields four bytes, and parsing those
/// four bytes gives the report back, whatever the wheel value.
pub proof fn lemma_mouse_roundtrip(m: MouseReport)
    ensures
        m.wire().len() == 4,
        MouseReport::parsed(m.wire()) == Some(m),
{
    lemma_signed_byte_roundtrip(m.x);
    lemma_signed_byte_roundtrip(m.y);
    lemma_signed_byte_roundtrip(m.wheel);
}

/// USB HID Report Descriptor for a standard 3-button mouse with scroll wheel.
pub const MOUSE_REPORT_DESCRIPTOR: [u8; 62] = [
    0x05, 0x01, // Usage Page (Generic Desktop)
    0x09, 0x02, // Usage (Mouse)
    0xA1, 0x01, // Collection (Application)
    0x09, 0x01, //   Usage (Pointer)
    0xA1, 0x00, //   Collection (Physical)
    //   - Buttons (3 bits + 5 padding) -
    0x05, 0x09, //     Usage Page (Buttons)
    0x19, 0x01, //     Usage Minimum (Button 1)
    0x29, 0x03, //     Usage Maximum (Button 3)
    0x15, 0x00, //     Logical Minimum (0)
    0x25, 0x01, //     Logical Maximum (1)
    0x95, 0x03, //     Report Count (3)
    0x75, 0x01, //     Report Size (1)
    0x81, 0x02, //     Input (Data, Variable, Absolute)
    0x95, 0x01, //     Report Count (1)
    0x75, 0x05, //     Report Size (5)
    0x81, 0x01, //     Input (Constant) - padding
    //   - X, Y displacement -
    0x05, 0x01, //     Usage Page (Generic Desktop)
    0x09, 0x30, //     Usage (X)
    0x09, 0x31, //     Usage (Y)
    0x15, 0x81, //     Logical Minimum (-127)
    0x25, 0x7F, //     Logical Maximum (127)
    0x75, 0x08, //     Report Size (8)
    0x95, 0x02, //     Report Count (2)
    0x81, 0x06, //     Input (Data, Variable, Relative)
    //   - Scroll wheel -
    0x09, 0x38, //     Usage (Wheel)
    0x15, 0x81, //     Logical Minimum (-127)
    0x25, 0x7F, //     Logical Maximum (127)
    0x75, 0x08, //     Report Size (8)
    0x95, 0x01, //     Report Count (1)
    0x81, 0x06, //     Input (Data, Variable, Relative)
    0xC0, //   End Collection (Physical)
    0xC0, // End Collection (Application)
];

} // verus!
