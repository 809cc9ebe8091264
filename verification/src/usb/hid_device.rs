//! USB HID composite device - keyboard, mouse and consumer control.
//!
//! The forwarder takes the canonical reports one by one, picks the
//! endpoint of each and lays out its bytes in an 8-byte scratch buffer. The
//! write itself is the caller's part; a write that fails is logged and
//! forgotten, so that the BLE side never waits for USB.

use vstd::prelude::*;

use crate::hid::HidReport;

verus! {

/// Capacity of the channel that carries reports from the slot workers to
/// the forwarder. A report that finds the channel full is dropped.
pub const REPORT_CHANNEL_CAPACITY: usize = 16;

/// Largest packet of a HID endpoint, and size of the scratch buffer.
pub const HID_MAX_PACKET_SIZE: usize = 8;

/// Current drawn from the bus, in mA.
pub const USB_MAX_POWER_MA: u16 = 100;

/// Largest packet of the control endpoint.
pub const USB_MAX_PACKET_SIZE_0: u8 = 64;

/// The HID endpoints of the composite device.
#[derive(Clone, Copy, Debug, PartialEq, Eq)]
pub enum Endpoint {
    Keyboard,
    Mouse,
    Consumer,
}

/// The endpoint that a report goes to.
pub open spec fn endpoint_of(report: HidReport) -> Endpoint {
    match report {
        HidReport::Keyboard(_) => Endpoint::Keyboard,
        HidReport::Mouse(_) => Endpoint::Mouse,
        HidReport::Consumer(_) => Endpoint::Consumer,
    }
}

/// Prepares one report for its endpoint: picks the endpoint and writes the
/// report's bytes to the front of the scratch buffer. The result is the
/// endpoint and the number of bytes to send.
pub fn prepare_report(report: &HidReport, buf: &mut [u8; 8]) -> (packet: (Endpoint, usize))
    ensures
        packet.0 == endpoint_of(*report),
        packet.1 == report.wire().len(),
        1 <= packet.1 <= 8,
        final(buf)@.take(packet.1 as int) == report.wire(),
        final(buf)@.skip(packet.1 as int) == old(buf)@.skip(packet.1 as int),
{
    let scratch: &mut [u8] = buf;
    let n = report.serialize(scratch);
    proof {
        let w = report.wire();
        assert((w + old(buf)@.skip(n as int)).take(n as int) =~= w);
        assert((w + old(buf)@.skip(n as int)).skip(n as int) =~= old(buf)@.skip(n as int));
    }
    let endpoint = match report {
        HidReport::Keyboard(_) => Endpoint::Keyboard,
        HidReport::Mouse(_) => Endpoint::Mouse,
        HidReport::Consumer(_) => Endpoint::Consumer,
    };
    (endpoint, n)
}

} // verus!
