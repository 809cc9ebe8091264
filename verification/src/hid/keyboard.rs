//! USB HID keyboard report (boot protocol compatible).
//!
//! Layout (8 bytes):
//! ```text
//! Byte 0: Modifier keys (bitfield)
//!         Bit 0 = Left Ctrl,  Bit 1 = Left Shift,
//!         Bit 2 = Left Alt,   Bit 3 = Left GUI,
//!         Bit 4 = Right Ctrl, Bit 5 = Right Shift,
//!         Bit 6 = Right Alt,  Bit 7 = Right GUI
//! Byte 1: Reserved (0x00)
//! Byte 2-7: Up to 6 simultaneous key codes (USB HID usage codes)
//! ```

use vstd::prelude::*;

verus! {

/// Keyboard report size in bytes.
pub const KEYBOARD_REPORT_SIZE: usize = 8;

/// Standard USB HID boot-protocol keyboard report.
#[derive(Clone, Copy, Debug, PartialEq, Eq)]
pub struct KeyboardReport {
    /// Modifier key bitfield.
    pub modifier: u8,
    /// Reserved byte (always 0x00 per HID spec).
    pub reserved: u8,
    /// Up to 6 simultaneously pressed key codes.
    pub keycodes: [u8; 6],
}

impl KeyboardReport {
    /// The eight bytes of the report in wire order.
    pub open spec fn wire(self) -> Seq<u8> {
        seq![self.modifier, self.reserved] + self.keycodes@
    }

    /// The report carried by the first eight bytes of `data`, if there are
    /// that many; bytes after the eighth are ignored.
    pub open spec fn parsed(data: Seq<u8>) -> Option<KeyboardReport> {
        if data.len() < 8 {
            None
        } else {
            Some(
                KeyboardReport {
                    modifier: data[0],
                    reserved: data[1],
                    keycodes: [data[2], data[3], data[4], data[5], data[6], data[7]],
                },
            )
        }
    }

    /// The report with no modifier and no key held.
    pub open spec fn released() -> KeyboardReport {
        KeyboardReport { modifier: 0, reserved: 0, keycodes: [0u8, 0u8, 0u8, 0u8, 0u8, 0u8] }
    }

    /// Create an empty (all-keys-released) report.
    pub fn empty() -> (report: Self)
        ensures
            report == Self::released(),
    {
        Self { modifier: 0, reserved: 0, keycodes: [0, 0, 0, 0, 0, 0] }
    }

    /// Parse from raw BLE HID notification bytes.
    ///
    /// BLE HID boot-protocol keyboard reports are identical in layout
    /// to USB boot-protocol reports, so this is a direct copy.
    pub fn from_ble_bytes(data: &[u8]) -> (report: Option<Self>)
        ensures
            report == Self::parsed(data@),
    {
        if data.len() < KEYBOARD_REPORT_SIZE {
            return None;
        }
        Some(
            Self {
                modifier: data[0],
                reserved: data[1],
                keycodes: [data[2], data[3], data[4], data[5], data[6], data[7]],
            },
        )
    }

    /// Serialise into a byte slice for USB HID transmission.
    ///
    /// Returns the number of bytes written: 8, or 0 when `buf` is too small,
    /// in which case `buf` is left as it was.
    pub fn serialize(&self, buf: &mut [u8]) -> (written: usize)
        ensures
            final(buf)@.len() == old(buf)@.len(),
            old(buf)@.len() < 8 ==> written == 0 && final(buf)@ == old(buf)@,
            old(buf)@.len() >= 8 ==> written == 8 && final(buf)@ == self.wire() + old(buf)@.skip(8),
    {
        if buf.len() < KEYBOARD_REPORT_SIZE {
            return 0;
        }
        buf[0] = self.modifier;
        buf[1] = self.reserved;
        let mut i: usize = 0;
        while i < 6
            invariant
                i <= 6,
                buf@.len() == old(buf)@.len(),
                buf@.len() >= 8,
                buf@[0] == self.modifier,
                buf@[1] == self.reserved,
                forall|j: int| 0 <= j < i ==> buf@[2 + j] == self.keycodes@[j],
                forall|j: int| 8 <= j < buf@.len() ==> buf@[j] == old(buf)@[j],
            decreases 6 - i,
        {
            buf[2 + i] = self.keycodes[i];
            i += 1;
        }
        assert(buf@ =~= self.wire() + old(buf)@.skip(8));
        KEYBOARD_REPORT_SIZE
    }

    /// Returns `true` if no keys are pressed (release event): the modifier
    /// byte and all six key codes are zero.
    pub fn is_empty(&self) -> (empty: bool)
        ensures
            empty == (self.modifier == 0 && forall|i: int|
                0 <= i < 6 ==> self.keycodes@[i] == 0),
    {
        let mut i: usize = 0;
        while i < 6
            invariant
                i <= 6,
                forall|j: int| 0 <= j < i ==> self.keycodes@[j] == 0,
            decreases 6 - i,
        {
            if self.keycodes[i] != 0 {
                return false;
            }
            i += 1;
        }
        self.modifier == 0
    }
}

impl Default for KeyboardReport {
    fn default() -> (report: Self)
        ensures
            report == KeyboardReport::released(),
    {
        Self { modifier: 0, reserved: 0, keycodes: [0, 0, 0, 0, 0, 0] }
    }
}

/// Serialising a keyboard report yields eight bytes, and parsing those
/// bytes gives back a report with the same fields.
pub proof fn lemma_keyboard_roundtrip(k: KeyboardReport)
    ensures
        k.wire().len() == 8,
        KeyboardReport::parsed(k.wire()) == Some(k),
{
    let p = KeyboardReport::parsed(k.wire()).unwrap();
    assert(p.keycodes =~= k.keycodes);
}

/// Parsing at least eight bytes and serialising the result gives the first
/// eight bytes back.
pub proof fn lemma_keyboard_parse_then_wire(data: Seq<u8>)
    requires
        data.len() >= 8,
    ensures
        KeyboardReport::parsed(data).unwrap().wire() == data.take(8),
{
    assert(KeyboardReport::parsed(data).unwrap().wire() =~= data.take(8));
}

/// USB HID Report Descriptor for a standard keyboard.
///
/// This descriptor tells the USB host that we are a keyboard with:
///   - 8 modifier key bits (input)
///   - 1 reserved byte
///   - 5 LED indicators (output)
///   - 6 key code bytes (input)
pub const KEYBOARD_REPORT_DESCRIPTOR: [u8; 64] = [
    0x05, 0x01, // Usage Page (Generic Desktop)
    0x09, 0x06, // Usage (Keyboard)
    0xA1, 0x01, // Collection (Application)
    //   - Modifier keys (8 bits) -
    0x05, 0x07, //   Usage Page (Keyboard/Keypad)
    0x19, 0xE0, //   Usage Minimum (Left Control)
    0x29, 0xE7, //   Usage Maximum (Right GUI)
    0x15, 0x00, //   Logical Minimum (0)
    0x25, 0x01, //   Logical Maximum (1)
    0x75, 0x01, //   Report Size (1)
    0x95, 0x08, //   Report Count (8)
    0x81, 0x02, //   Input (Data, Variable, Absolute)
    //   - Reserved byte -
    0x95, 0x01, //   Report Count (1)
    0x75, 0x08, //   Report Size (8)
    0x81, 0x01, //   Input (Constant) - padding
    //   - LED output (5 bits + 3 padding) -
    0x05, 0x08, //   Usage Page (LEDs)
    0x19, 0x01, //   Usage Minimum (Num Lock)
    0x29, 0x05, //   Usage Maximum (Kana)
    0x95, 0x05, //   Report Count (5)
    0x75, 0x01, //   Report Size (1)
    0x91, 0x02, //   Output (Data, Variable, Absolute)
    0x95, 0x01, //   Report Count (1)
    0x75, 0x03, //   Report Size (3)
    0x91, 0x01, //   Output (Constant) - padding
    //   - Key codes (6 bytes) -
    0x05, 0x07, //   Usage Page (Keyboard/Keypad)
    0x19, 0x00, //   Usage Minimum (0)
    0x29, 0xFF, //   Usage Maximum (255)
    0x15, 0x00, //   Logical Minimum (0)
    0x26, 0xFF, 0x00, // Logical Maximum (255)
    0x95, 0x06, //   Report Count (6)
    0x75, 0x08, //   Report Size (8)
    0x81, 0x00, //   Input (Data, Array)
    0xC0, // End Collection
];

} // verus!
