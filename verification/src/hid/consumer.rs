//! Consumer Control HID support - media keys, volume, etc.
//!
//! Consumer Control is a separate HID usage page (0x0C) that handles:
//! - Volume Up/Down/Mute
//! - Play/Pause/Stop/Next/Previous
//! - Browser controls (Back, Forward, Home)
//! - Power controls (Sleep, Wake)
//!
//! This is transmitted as a separate USB HID report alongside
//! keyboard and mouse reports.

use vstd::prelude::*;

verus! {

/// Consumer control report size (2 bytes for usage ID).
pub const CONSUMER_REPORT_SIZE: usize = 2;

/// Common consumer control usage codes (Usage Page 0x0C).
#[derive(Clone, Copy, Debug, PartialEq, Eq)]
pub enum ConsumerUsage {
    /// No action.
    NoAction,
    /// Play/Pause toggle.
    PlayPause,
    /// Next track.
    NextTrack,
    /// Previous track.
    PrevTrack,
    /// Stop.
    Stop,
    /// Volume up.
    VolumeUp,
    /// Volume down.
    VolumeDown,
    /// Mute toggle.
    Mute,
    /// Browser home.
    BrowserHome,
    /// Browser back.
    BrowserBack,
    /// Browser forward.
    BrowserForward,
    /// Browser refresh.
    BrowserRefresh,
    /// Launch email client.
    LaunchEmail,
    /// Launch calculator.
    LaunchCalculator,
    /// Launch file browser.
    LaunchFileBrowser,
    /// Sleep.
    Sleep,
}

impl ConsumerUsage {
    /// The 16-bit usage code of a named usage.
    pub open spec fn code_of(self) -> u16 {
        match self {
            ConsumerUsage::NoAction => 0x0000,
            ConsumerUsage::PlayPause => 0x00CD,
            ConsumerUsage::NextTrack => 0x00B5,
            ConsumerUsage::PrevTrack => 0x00B6,
            ConsumerUsage::Stop => 0x00B7,
            ConsumerUsage::VolumeUp => 0x00E9,
            ConsumerUsage::VolumeDown => 0x00EA,
            ConsumerUsage::Mute => 0x00E2,
            ConsumerUsage::BrowserHome => 0x0223,
            ConsumerUsage::BrowserBack => 0x0224,
            ConsumerUsage::BrowserForward => 0x0225,
            ConsumerUsage::BrowserRefresh => 0x0227,
            ConsumerUsage::LaunchEmail => 0x018A,
            ConsumerUsage::LaunchCalculator => 0x0192,
            ConsumerUsage::LaunchFileBrowser => 0x0194,
            ConsumerUsage::Sleep => 0x0032,
        }
    }

    /// The named usage of a code; codes without a name read as `NoAction`.
    pub open spec fn named(code: u16) -> ConsumerUsage {
        if code == 0x00CD {
            ConsumerUsage::PlayPause
        } else if code == 0x00B5 {
            ConsumerUsage::NextTrack
        } else if code == 0x00B6 {
            ConsumerUsage::PrevTrack
        } else if code == 0x00B7 {
            ConsumerUsage::Stop
        } else if code == 0x00E9 {
            ConsumerUsage::VolumeUp
        } else if code == 0x00EA {
            ConsumerUsage::VolumeDown
        } else if code == 0x00E2 {
            ConsumerUsage::Mute
        } else if code == 0x0223 {
            ConsumerUsage::BrowserHome
        } else if code == 0x0224 {
            ConsumerUsage::BrowserBack
        } else if code == 0x0225 {
            ConsumerUsage::BrowserForward
        } else if code == 0x0227 {
            ConsumerUsage::BrowserRefresh
        } else if code == 0x018A {
            ConsumerUsage::LaunchEmail
        } else if code == 0x0192 {
            ConsumerUsage::LaunchCalculator
        } else if code == 0x0194 {
            ConsumerUsage::LaunchFileBrowser
        } else if code == 0x0032 {
            ConsumerUsage::Sleep
        } else {
            ConsumerUsage::NoAction
        }
    }

    /// The 16-bit usage code of this usage.
    pub fn code(self) -> (code: u16)
        ensures
            code == self.code_of(),
    {
        match self {
            ConsumerUsage::NoAction => 0x0000,
            ConsumerUsage::PlayPause => 0x00CD,
            ConsumerUsage::NextTrack => 0x00B5,
            ConsumerUsage::PrevTrack => 0x00B6,
            ConsumerUsage::Stop => 0x00B7,
            ConsumerUsage::VolumeUp => 0x00E9,
            ConsumerUsage::VolumeDown => 0x00EA,
            ConsumerUsage::Mute => 0x00E2,
            ConsumerUsage::BrowserHome => 0x0223,
            ConsumerUsage::BrowserBack => 0x0224,
            ConsumerUsage::BrowserForward => 0x0225,
            ConsumerUsage::BrowserRefresh => 0x0227,
            ConsumerUsage::LaunchEmail => 0x018A,
            ConsumerUsage::LaunchCalculator => 0x0192,
            ConsumerUsage::LaunchFileBrowser => 0x0194,
            ConsumerUsage::Sleep => 0x0032,
        }
    }
}

impl vstd::std_specs::convert::FromSpecImpl<u16> for ConsumerUsage {
    open spec fn obeys_from_spec() -> bool {
        true
    }

    open spec fn from_spec(code: u16) -> Self {
        ConsumerUsage::named(code)
    }
}

impl From<u16> for ConsumerUsage {
    fn from(code: u16) -> (usage: Self) {
        match code {
            0x00CD => ConsumerUsage::PlayPause,
            0x00B5 => ConsumerUsage::NextTrack,
            0x00B6 => ConsumerUsage::PrevTrack,
            0x00B7 => ConsumerUsage::Stop,
            0x00E9 => ConsumerUsage::VolumeUp,
            0x00EA => ConsumerUsage::VolumeDown,
            0x00E2 => ConsumerUsage::Mute,
            0x0223 => ConsumerUsage::BrowserHome,
            0x0224 => ConsumerUsage::BrowserBack,
            0x0225 => ConsumerUsage::BrowserForward,
            0x0227 => ConsumerUsage::BrowserRefresh,
            0x018A => ConsumerUsage::LaunchEmail,
            0x0192 => ConsumerUsage::LaunchCalculator,
            0x0194 => ConsumerUsage::LaunchFileBrowser,
            0x0032 => ConsumerUsage::Sleep,
            _ => ConsumerUsage::NoAction,
        }
    }
}

/// The usage code that two wire bytes spell, low byte first.
pub open spec fn usage_of(low: u8, high: u8) -> u16 {
    (low + 256 * high) as u16
}

/// Consumer Control HID report.
///
/// Simple 2-byte report containing a single usage code.
/// Multiple simultaneous keys are not supported in this implementation.
#[derive(Clone, Copy, Debug, PartialEq, Eq)]
pub struct ConsumerReport {
    /// Active consumer control usage (little-endian u16).
    pub usage: u16,
}

impl ConsumerReport {
    /// The two bytes of the report in wire order: low byte, then high byte.
    pub open spec fn wire(self) -> Seq<u8> {
        seq![(self.usage % 256) as u8, (self.usage / 256) as u8]
    }

    /// The report carried by the first two bytes of `data`, if there are
    /// that many.
    pub open spec fn parsed(data: Seq<u8>) -> Option<ConsumerReport> {
        if data.len() < 2 {
            None
        } else {
            Some(ConsumerReport { usage: usage_of(data[0], data[1]) })
        }
    }

    /// Create an empty (no keys pressed) report.
    pub fn empty() -> (report: Self)
        ensures
            report.usage == 0,
    {
        Self { usage: 0 }
    }

    /// Create a report with a single usage.
    pub fn new(usage: ConsumerUsage) -> (report: Self)
        ensures
            report.usage == usage.code_of(),
    {
        Self { usage: usage.code() }
    }

    /// Parse from raw BLE bytes.
    pub fn from_ble_bytes(data: &[u8]) -> (report: Option<Self>)
        ensures
            report == Self::parsed(data@),
    {
        if data.len() < 2 {
            return None;
        }
        Some(Self { usage: read_usage(data[0], data[1]) })
    }

    /// Serialize to USB HID report bytes.
    ///
    /// Returns the number of bytes written: 2, or 0 when `buf` is too small,
    /// in which case `buf` is left as it was.
    pub fn serialize(&self, buf: &mut [u8]) -> (written: usize)
        ensures
            final(buf)@.len() == old(buf)@.len(),
            old(buf)@.len() < 2 ==> written == 0 && final(buf)@ == old(buf)@,
            old(buf)@.len() >= 2 ==> written == 2 && final(buf)@ == self.wire() + old(buf)@.skip(2),
    {
        if buf.len() < CONSUMER_REPORT_SIZE {
            return 0;
        }
        let usage = self.usage;
        let low = (usage & 0xff) as u8;
        let high = (usage >> 8) as u8;
        assert(low == (usage % 256) as u8 && high == (usage / 256) as u8) by (bit_vector)
            requires
                low == (usage & 0xff) as u8,
                high == (usage >> 8) as u8,
        ;
        buf[0] = low;
        buf[1] = high;
        assert(buf@ =~= self.wire() + old(buf)@.skip(2));
        CONSUMER_REPORT_SIZE
    }

    /// Check if no key is pressed.
    pub fn is_empty(&self) -> (empty: bool)
        ensures
            empty == (self.usage == 0),
    {
        self.usage == 0
    }

    /// Get the usage as an enum.
    pub fn get_usage(&self) -> (usage: ConsumerUsage)
        ensures
            usage == ConsumerUsage::named(self.usage),
    {
        ConsumerUsage::from(self.usage)
    }
}

impl Default for ConsumerReport {
    fn default() -> (report: Self)
        ensures
            report.usage == 0,
    {
        Self { usage: 0 }
    }
}

/// Reads a little-endian usage code from its two wire bytes.
pub(crate) fn read_usage(low: u8, high: u8) -> (usage: u16)
    ensures
        usage == usage_of(low, high),
{
    let usage = (low as u16) | ((high as u16) << 8);
    assert(usage == (low + 256 * high) as u16) by (bit_vector)
        requires
            usage == (low as u16) | ((high as u16) << 8),
    ;
    usage
}

/// Serialising a consumer report yields two bytes, and parsing those bytes
/// gives the report back.
pub proof fn lemma_consumer_roundtrip(c: ConsumerReport)
    ensures
        c.wire().len() == 2,
        ConsumerReport::parsed(c.wire()) == Some(c),
{
    let u = c.usage;
    assert(((u % 256) as u8 + 256 * ((u / 256) as u8)) as u16 == u) by (bit_vector);
}

/// Every named usage is found again from its code.
pub proof fn lemma_usage_code_roundtrip(usage: ConsumerUsage)
    ensures
        ConsumerUsage::named(usage.code_of()) == usage,
{
}

/// USB HID Report Descriptor for Consumer Control.
///
/// This is a minimal descriptor for a single 16-bit usage.
pub const CONSUMER_REPORT_DESCRIPTOR: [u8; 23] = [
    0x05, 0x0C, // Usage Page (Consumer)
    0x09, 0x01, // Usage (Consumer Control)
    0xA1, 0x01, // Collection (Application)
    0x15, 0x00, //   Logical Minimum (0)
    0x26, 0xFF, 0x03, //   Logical Maximum (1023)
    0x19, 0x00, //   Usage Minimum (0)
    0x2A, 0xFF, 0x03, //   Usage Maximum (1023)
    0x75, 0x10, //   Report Size (16)
    0x95, 0x01, //   Report Count (1)
    0x81, 0x00, //   Input (Data, Array, Absolute)
    0xC0, // End Collection
];

} // verus!
