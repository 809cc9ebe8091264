//! HID report types and the BLE to USB translation layer.
//!
//! A notification from a peripheral is classified into one of three
//! canonical reports. The policy, in order:
//!
//! 1. If a parsed descriptor names report IDs and the first byte is one of
//!    them, the rest of the payload is parsed as the kind that ID stands for.
//! 2. Otherwise the whole payload is parsed by its length: 8 bytes are a
//!    keyboard report, 3 or 4 bytes a mouse report, 2 bytes a consumer
//!    report if the usage lies strictly between 0 and 0x1000.
//! 3. Otherwise the first byte is read as a report ID under the fixed map
//!    1 keyboard, 2 mouse, 3 consumer, and the rest is parsed as that kind.
//! 4. Otherwise the notification is dropped.

pub mod consumer;
pub mod keyboard;
pub mod mouse;
pub mod report_protocol;

use vstd::prelude::*;

pub use consumer::ConsumerReport;
pub use keyboard::KeyboardReport;
pub use mouse::MouseReport;
use consumer::usage_of;
use report_protocol::{HidDescriptor, ReportKind};

verus! {

/// One canonical report, ready for its USB endpoint.
#[derive(Clone, Copy, Debug, PartialEq, Eq)]
pub enum HidReport {
    Keyboard(KeyboardReport),
    Mouse(MouseReport),
    Consumer(ConsumerReport),
}

impl HidReport {
    /// The bytes of the report in wire order: 8 for a keyboard report, 4
    /// for a mouse report, 2 for a consumer report.
    pub open spec fn wire(self) -> Seq<u8> {
        match self {
            HidReport::Keyboard(k) => k.wire(),
            HidReport::Mouse(m) => m.wire(),
            HidReport::Consumer(c) => c.wire(),
        }
    }

    /// Serialise into a byte slice for USB HID transmission.
    ///
    /// Returns the number of bytes written, or 0 when `buf` is too small
    /// for this report, in which case `buf` is left as it was.
    pub fn serialize(&self, buf: &mut [u8]) -> (written: usize)
        ensures
            final(buf)@.len() == old(buf)@.len(),
            old(buf)@.len() < self.wire().len() ==> written == 0 && final(buf)@ == old(buf)@,
            old(buf)@.len() >= self.wire().len() ==> written == self.wire().len() && final(buf)@
                == self.wire() + old(buf)@.skip(written as int),
    {
        match self {
            HidReport::Keyboard(k) => k.serialize(buf),
            HidReport::Mouse(m) => m.serialize(buf),
            HidReport::Consumer(c) => c.serialize(buf),
        }
    }

    pub fn is_keyboard(&self) -> (yes: bool)
        ensures
            yes == (self is Keyboard),
    {
        match self {
            HidReport::Keyboard(_) => true,
            _ => false,
        }
    }

    pub fn is_mouse(&self) -> (yes: bool)
        ensures
            yes == (self is Mouse),
    {
        match self {
            HidReport::Mouse(_) => true,
            _ => false,
        }
    }

    pub fn is_consumer(&self) -> (yes: bool)
        ensures
            yes == (self is Consumer),
    {
        match self {
            HidReport::Consumer(_) => true,
            _ => false,
        }
    }
}

/// The keyboard report that `data` carries, as a canonical report.
pub open spec fn as_keyboard(data: Seq<u8>) -> Option<HidReport> {
    match KeyboardReport::parsed(data) {
        Some(k) => Some(HidReport::Keyboard(k)),
        None => None,
    }
}

/// The mouse report that `data` carries, as a canonical report.
pub open spec fn as_mouse(data: Seq<u8>) -> Option<HidReport> {
    match MouseReport::parsed(data) {
        Some(m) => Some(HidReport::Mouse(m)),
        None => None,
    }
}

/// The consumer report that `data` carries, as a canonical report.
pub open spec fn as_consumer(data: Seq<u8>) -> Option<HidReport> {
    match ConsumerReport::parsed(data) {
        Some(c) => Some(HidReport::Consumer(c)),
        None => None,
    }
}

/// The report that `data` carries when it is known to be of `kind`.
pub open spec fn by_kind(kind: ReportKind, data: Seq<u8>) -> Option<HidReport> {
    match kind {
        ReportKind::Keyboard => as_keyboard(data),
        ReportKind::Mouse => as_mouse(data),
        ReportKind::Consumer => as_consumer(data),
    }
}

/// The report that `data` carries, judged by its length alone: 8 bytes are
/// a keyboard report, 3 or 4 bytes a mouse report, 2 bytes a consumer report
/// if the usage lies strictly between 0 and 0x1000.
pub open spec fn by_length(data: Seq<u8>) -> Option<HidReport> {
    if data.len() == 8 {
        as_keyboard(data)
    } else if data.len() == 3 || data.len() == 4 {
        as_mouse(data)
    } else if data.len() == 2 && 0 < usage_of(data[0], data[1]) < 0x1000 {
        as_consumer(data)
    } else {
        None
    }
}

/// The report that `data` carries under a report ID: 1 is a keyboard
/// report, 2 a mouse report, 3 a consumer report; any other ID leaves the
/// length to decide.
pub open spec fn by_report_id(report_id: u8, data: Seq<u8>) -> Option<HidReport> {
    if report_id == 1 {
        as_keyboard(data)
    } else if report_id == 2 {
        as_mouse(data)
    } else if report_id == 3 {
        as_consumer(data)
    } else {
        by_length(data)
    }
}

/// The report that `data` carries when its first byte is read as a report
/// ID named by the descriptor.
pub open spec fn by_hint(hint: Option<HidDescriptor>, data: Seq<u8>) -> Option<HidReport> {
    if hint is Some && hint.unwrap().knows_report_ids() && data.len() > 1 {
        match hint.unwrap().kind_of(data[0]) {
            Some(kind) => by_kind(kind, data.skip(1)),
            None => None,
        }
    } else {
        None
    }
}

/// The report that `data` carries when its first byte is read as a report
/// ID under the fixed map 1 keyboard, 2 mouse, 3 consumer.
pub open spec fn by_fixed_prefix(data: Seq<u8>) -> Option<HidReport> {
    if data.len() > 1 && 1 <= data[0] <= 3 {
        by_report_id(data[0], data.skip(1))
    } else {
        None
    }
}

/// The canonical report of a notification, or `None` if it is dropped: the
/// first of the descriptor's reading, the reading by length and the reading
/// under the fixed report-ID map that yields a report.
pub open spec fn classified(data: Seq<u8>, hint: Option<HidDescriptor>) -> Option<HidReport> {
    if by_hint(hint, data) is Some {
        by_hint(hint, data)
    } else if by_length(data) is Some {
        by_length(data)
    } else {
        by_fixed_prefix(data)
    }
}

/// Classify a payload whose report ID is already known.
pub fn classify_report(report_id: u8, data: &[u8]) -> (report: Option<HidReport>)
    ensures
        report == by_report_id(report_id, data@),
{
    match report_id {
        1 => parse_by_kind(ReportKind::Keyboard, data),
        2 => parse_by_kind(ReportKind::Mouse, data),
        3 => parse_by_kind(ReportKind::Consumer, data),
        _ => infer_from_length(data),
    }
}

/// Classify a notification where the payload may be either raw boot report
/// bytes or report-protocol bytes prefixed with a report ID.
pub fn classify_notification(data: &[u8]) -> (report: Option<HidReport>)
    ensures
        report == classified(data@, None),
{
    let direct = classify_report(0, data);
    if direct.is_some() {
        return direct;
    }
    if data.len() > 1 && 1 <= data[0] && data[0] <= 3 {
        classify_report(data[0], &data[1..data.len()])
    } else {
        None
    }
}

/// Classify a notification with the help of the peripheral's parsed report
/// descriptor, if there is one.
pub fn classify_notification_with_hint(data: &[u8], descriptor: Option<&HidDescriptor>) -> (report:
    Option<HidReport>)
    ensures
        report == classified(
            data@,
            match descriptor {
                Some(d) => Some(*d),
                None => None,
            },
        ),
{
    if let Some(desc) = descriptor {
        if desc.has_report_ids() && data.len() > 1 {
            let report_id = data[0];
            if let Some(kind) = desc.report_kind_for_id(report_id) {
                let hinted = parse_by_kind(kind, &data[1..data.len()]);
                if hinted.is_some() {
                    return hinted;
                }
            }
        }
    }
    classify_notification(data)
}

fn parse_by_kind(kind: ReportKind, data: &[u8]) -> (report: Option<HidReport>)
    ensures
        report == by_kind(kind, data@),
{
    match kind {
        ReportKind::Keyboard => match KeyboardReport::from_ble_bytes(data) {
            Some(k) => Some(HidReport::Keyboard(k)),
            None => None,
        },
        ReportKind::Mouse => match MouseReport::from_ble_bytes(data) {
            Some(m) => Some(HidReport::Mouse(m)),
            None => None,
        },
        ReportKind::Consumer => match ConsumerReport::from_ble_bytes(data) {
            Some(c) => Some(HidReport::Consumer(c)),
            None => None,
        },
    }
}

fn infer_from_length(data: &[u8]) -> (report: Option<HidReport>)
    ensures
        report == by_length(data@),
{
    let len = data.len();
    if len == 8 {
        parse_by_kind(ReportKind::Keyboard, data)
    } else if len == 3 || len == 4 {
        parse_by_kind(ReportKind::Mouse, data)
    } else if len == 2 {
        let usage = consumer::read_usage(data[0], data[1]);
        if usage > 0 && usage < 0x1000 {
            parse_by_kind(ReportKind::Consumer, data)
        } else {
            None
        }
    } else {
        None
    }
}

/// Whether the descriptor reads `first` as the report ID of a mouse or of
/// a consumer report.
pub open spec fn claims_prefix(hint: Option<HidDescriptor>, first: u8) -> bool {
    &&& hint is Some
    &&& hint.unwrap().knows_report_ids()
    &&& (hint.unwrap().kind_of(first) == Some(ReportKind::Mouse) || hint.unwrap().kind_of(first)
        == Some(ReportKind::Consumer))
}

impl HidReport {
    /// Whether the wire bytes of this report are read as this report again.
    ///
    /// A keyboard or mouse report is, unless the descriptor takes its first
    /// byte for the report ID of a mouse or consumer report. A consumer
    /// report is if its usage lies strictly between 0 and 0x1000: two bytes
    /// outside that range are read as nothing.
    pub open spec fn reads_back(self, hint: Option<HidDescriptor>) -> bool {
        match self {
            HidReport::Keyboard(k) => !claims_prefix(hint, k.modifier),
            HidReport::Mouse(m) => !claims_prefix(hint, m.buttons),
            HidReport::Consumer(c) => 0 < c.usage < 0x1000,
        }
    }
}

/// Parsing the wire bytes of a report as its own kind gives the report back.
pub proof fn lemma_wire_parses_back(report: HidReport)
    ensures
        report is Keyboard ==> as_keyboard(report.wire()) == Some(report),
        report is Mouse ==> as_mouse(report.wire()) == Some(report),
        report is Consumer ==> as_consumer(report.wire()) == Some(report),
        report.wire().len() == 2 || report.wire().len() == 4 || report.wire().len() == 8,
{
    match report {
        HidReport::Keyboard(k) => keyboard::lemma_keyboard_roundtrip(k),
        HidReport::Mouse(m) => mouse::lemma_mouse_roundtrip(m),
        HidReport::Consumer(c) => consumer::lemma_consumer_roundtrip(c),
    }
}

/// Round trip of the classifier: if a notification is classified as a
/// report, and that report reads back, then the report's wire bytes are
/// classified as the same report under the same descriptor.
pub proof fn lemma_classify_roundtrip(data: Seq<u8>, hint: Option<HidDescriptor>)
    requires
        classified(data, hint) is Some,
        classified(data, hint).unwrap().reads_back(hint),
    ensures
        classified(classified(data, hint).unwrap().wire(), hint) == classified(data, hint),
{
    lemma_report_reads_back(classified(data, hint).unwrap(), hint);
}

/// The wire bytes of a report that reads back are classified as that
/// report, whatever the descriptor holds.
pub proof fn lemma_report_reads_back(report: HidReport, hint: Option<HidDescriptor>)
    requires
        report.reads_back(hint),
    ensures
        classified(report.wire(), hint) == Some(report),
{
    lemma_wire_parses_back(report);
    let w = report.wire();
    match report {
        HidReport::Keyboard(k) => {
            assert(w.skip(1).len() == 7);
            assert(w[0] == k.modifier);
        },
        HidReport::Mouse(m) => {
            assert(w.skip(1).len() == 3);
            assert(w[0] == m.buttons);
        },
        HidReport::Consumer(c) => {
            assert(w.skip(1).len() == 1);
            assert(usage_of(w[0], w[1]) == c.usage);
        },
    }
}

/// The wire bytes of a report are classified as that report exactly when
/// the report reads back.
pub proof fn lemma_report_roundtrip(report: HidReport, hint: Option<HidDescriptor>)
    requires
        hint is Some ==> hint.unwrap().well_formed(),
    ensures
        classified(report.wire(), hint) == Some(report) <==> report.reads_back(hint),
{
    lemma_wire_parses_back(report);
    let w = report.wire();
    match report {
        HidReport::Keyboard(k) => {
            assert(w.skip(1).len() == 7);
            assert(w[0] == k.modifier);
        },
        HidReport::Mouse(m) => {
            assert(w.skip(1).len() == 3);
            assert(w[0] == m.buttons);
            if claims_prefix(hint, m.buttons) {
                assert(m.buttons != 0);
                if hint.unwrap().kind_of(m.buttons) == Some(ReportKind::Mouse) {
                    let again = MouseReport::parsed(w.skip(1)).unwrap();
                    assert(again.wheel == 0);
                    assert(again.y == crate::wire::signed_of(w.skip(1)[2]));
                    assert(again.x == crate::wire::signed_of(w.skip(1)[1]));
                    assert(again.buttons == w.skip(1)[0]);
                    crate::wire::lemma_signed_byte_roundtrip(m.wheel);
                    crate::wire::lemma_signed_byte_roundtrip(m.y);
                    crate::wire::lemma_signed_byte_roundtrip(m.x);
                    assert(again != m);
                }
            }
        },
        HidReport::Consumer(c) => {
            assert(w.skip(1).len() == 1);
            assert(usage_of(w[0], w[1]) == c.usage);
        },
    }
}

/// Every consumer usage from 1 to 0x0FFF, sent as its two wire bytes, is
/// classified as a consumer report with that usage, whatever the descriptor.
pub proof fn lemma_consumer_usage_classifies(usage: u16, hint: Option<HidDescriptor>)
    requires
        1 <= usage <= 0x0FFF,
    ensures
        classified((ConsumerReport { usage }).wire(), hint) == Some(
            HidReport::Consumer(ConsumerReport { usage }),
        ),
{
    let report = HidReport::Consumer(ConsumerReport { usage });
    lemma_wire_parses_back(report);
    let w = report.wire();
    assert(w.skip(1).len() == 1);
    assert(usage_of(w[0], w[1]) == usage);
}

/// A payload of fewer than eight bytes is no keyboard report, neither by
/// its kind nor under report ID 1, so the classifier goes on to its next
/// reading.
pub proof fn lemma_short_keyboard_payload(data: Seq<u8>)
    requires
        data.len() < 8,
    ensures
        KeyboardReport::parsed(data) is None,
        by_kind(ReportKind::Keyboard, data) is None,
        by_report_id(1, data) is None,
{
}

/// A mouse payload of exactly three bytes has no wheel byte: the wheel
/// reads as zero.
pub proof fn lemma_three_byte_mouse(data: Seq<u8>)
    requires
        data.len() == 3,
    ensures
        MouseReport::parsed(data) is Some,
        MouseReport::parsed(data).unwrap().wheel == 0,
{
}

} // verus!
