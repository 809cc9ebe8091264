//! HID Report Protocol parser.
//!
//! Parses HID Report Descriptors to understand the structure of
//! non-boot-protocol HID reports. This enables support for:
//! - Devices that don't support Boot Protocol
//! - Extended reports (NKRO keyboards, high-resolution mice)
//! - Consumer control reports embedded in keyboard descriptors
//!
//! ## HID Report Descriptor Structure
//!
//! A Report Descriptor is a sequence of short items. Each item starts with
//! a prefix byte that holds the tag (high four bits), the item type (next
//! two bits) and a size code (low two bits) for a payload of 0, 1, 2 or 4
//! bytes, little-endian.
//!
//! ## Limitations
//!
//! This implementation handles common cases but not the full HID spec:
//! - Nested collections are flattened
//! - Push/Pop state is not supported
//! - Delimiter tags are ignored
//! - Report Size and Report Count are skipped: nothing here depends on them

use vstd::prelude::*;

verus! {

/// Which of the three report streams a report belongs to.
#[derive(Clone, Copy, Debug, PartialEq, Eq)]
pub enum ReportKind {
    Keyboard,
    Mouse,
    Consumer,
}

/// Usage page codes.
#[derive(Clone, Copy, Debug, PartialEq, Eq)]
pub enum UsagePage {
    /// Generic Desktop (mouse, keyboard, joystick).
    GenericDesktop,
    /// Keyboard/Keypad.
    Keyboard,
    /// LEDs.
    Led,
    /// Button.
    Button,
    /// Consumer Control.
    Consumer,
    /// Unknown/unsupported.
    Unknown(u16),
}

impl UsagePage {
    /// The usage page that a 16-bit code names.
    pub open spec fn of_code(code: u16) -> UsagePage {
        if code == 0x01 {
            UsagePage::GenericDesktop
        } else if code == 0x07 {
            UsagePage::Keyboard
        } else if code == 0x08 {
            UsagePage::Led
        } else if code == 0x09 {
            UsagePage::Button
        } else if code == 0x0C {
            UsagePage::Consumer
        } else {
            UsagePage::Unknown(code)
        }
    }
}

impl vstd::std_specs::convert::FromSpecImpl<u16> for UsagePage {
    open spec fn obeys_from_spec() -> bool {
        true
    }

    open spec fn from_spec(code: u16) -> Self {
        UsagePage::of_code(code)
    }
}

impl From<u16> for UsagePage {
    fn from(code: u16) -> (page: Self) {
        match code {
            0x01 => UsagePage::GenericDesktop,
            0x07 => UsagePage::Keyboard,
            0x08 => UsagePage::Led,
            0x09 => UsagePage::Button,
            0x0C => UsagePage::Consumer,
            other => UsagePage::Unknown(other),
        }
    }
}

/// Generic Desktop usage codes.
#[derive(Clone, Copy, Debug, PartialEq, Eq)]
pub enum DesktopUsage {
    Pointer,
    Mouse,
    Keyboard,
    X,
    Y,
    Wheel,
    Unknown(u16),
}

impl DesktopUsage {
    /// The Generic Desktop usage that a 16-bit code names.
    pub open spec fn of_code(code: u16) -> DesktopUsage {
        if code == 0x01 {
            DesktopUsage::Pointer
        } else if code == 0x02 {
            DesktopUsage::Mouse
        } else if code == 0x06 {
            DesktopUsage::Keyboard
        } else if code == 0x30 {
            DesktopUsage::X
        } else if code == 0x31 {
            DesktopUsage::Y
        } else if code == 0x38 {
            DesktopUsage::Wheel
        } else {
            DesktopUsage::Unknown(code)
        }
    }
}

impl vstd::std_specs::convert::FromSpecImpl<u16> for DesktopUsage {
    open spec fn obeys_from_spec() -> bool {
        true
    }

    open spec fn from_spec(code: u16) -> Self {
        DesktopUsage::of_code(code)
    }
}

impl From<u16> for DesktopUsage {
    fn from(code: u16) -> (usage: Self) {
        match code {
            0x01 => DesktopUsage::Pointer,
            0x02 => DesktopUsage::Mouse,
            0x06 => DesktopUsage::Keyboard,
            0x30 => DesktopUsage::X,
            0x31 => DesktopUsage::Y,
            0x38 => DesktopUsage::Wheel,
            other => DesktopUsage::Unknown(other),
        }
    }
}

/// Parsed HID descriptor.
#[derive(Clone, Copy, Debug, PartialEq, Eq)]
pub struct HidDescriptor {
    /// Does this device have a keyboard report?
    pub has_keyboard: bool,
    /// Does this device have a mouse report?
    pub has_mouse: bool,
    /// Does this device have consumer control?
    pub has_consumer: bool,
    /// Report ID for keyboard input, when present.
    pub keyboard_report_id: Option<u8>,
    /// Report ID for mouse input, when present.
    pub mouse_report_id: Option<u8>,
    /// Report ID for consumer input, when present.
    pub consumer_report_id: Option<u8>,
}

/// One short item of a report descriptor.
pub struct ShortItem {
    /// The tag, from the high four bits of the prefix byte.
    pub tag: u8,
    /// The item type, from bits 2 and 3 of the prefix byte: 0 main,
    /// 1 global, 2 local.
    pub kind: u8,
    /// The payload, little-endian; zero when the item has none.
    pub value: u32,
}

/// What the parser remembers while it walks a descriptor.
pub struct WalkState {
    /// The usage page set by the latest Usage Page item.
    pub usage_page: UsagePage,
    /// The usage set by the latest Usage item.
    pub usage: u16,
    /// The report ID set by the latest Report ID item; zero before any.
    pub report_id: u8,
    /// What the Input items seen so far have shown.
    pub found: HidDescriptor,
}

/// The number of payload bytes that a prefix byte announces.
pub open spec fn payload_len(prefix: u8) -> int {
    let code = prefix % 4;
    if code == 3 {
        4
    } else {
        code as int
    }
}

/// The little-endian value of the `n` payload bytes that follow position `i`.
pub open spec fn payload_value(data: Seq<u8>, i: int, n: int) -> u32 {
    if n == 1 {
        data[i + 1] as u32
    } else if n == 2 {
        (data[i + 1] + 256 * data[i + 2]) as u32
    } else if n == 4 {
        (data[i + 1] + 256 * data[i + 2] + 65536 * data[i + 3] + 16777216 * data[i + 4]) as u32
    } else {
        0
    }
}

/// The item whose prefix byte stands at position `i`.
pub open spec fn item_at(data: Seq<u8>, i: int) -> ShortItem {
    ShortItem {
        tag: data[i] / 16,
        kind: (data[i] / 4) % 4,
        value: payload_value(data, i, payload_len(data[i])),
    }
}

/// The items of a descriptor from position `i` on, in order. The list ends
/// at the end of the data or before the first item whose announced payload
/// would run past it.
pub open spec fn items_from(data: Seq<u8>, i: int) -> Seq<ShortItem>
    decreases data.len() - i,
{
    if i < 0 || i >= data.len() || i + 1 + payload_len(data[i]) > data.len() {
        Seq::empty()
    } else {
        seq![item_at(data, i)] + items_from(data, i + 1 + payload_len(data[i]))
    }
}

/// The low sixteen bits of an item's value.
pub open spec fn low16(value: u32) -> u16 {
    (value % 0x1_0000) as u16
}

/// The low eight bits of an item's value.
pub open spec fn low8(value: u32) -> u8 {
    (value % 0x100) as u8
}

impl HidDescriptor {
    /// The descriptor before any item has been seen.
    pub open spec fn blank() -> HidDescriptor {
        HidDescriptor {
            has_keyboard: false,
            has_mouse: false,
            has_consumer: false,
            keyboard_report_id: None,
            mouse_report_id: None,
            consumer_report_id: None,
        }
    }

    /// A report ID is only recorded together with its capability, and a
    /// recorded report ID is never zero.
    pub open spec fn well_formed(self) -> bool {
        &&& self.keyboard_report_id is Some ==> self.has_keyboard
            && self.keyboard_report_id != Some(0u8)
        &&& self.mouse_report_id is Some ==> self.has_mouse && self.mouse_report_id != Some(0u8)
        &&& self.consumer_report_id is Some ==> self.has_consumer
            && self.consumer_report_id != Some(0u8)
    }

    /// Whether any capability was observed.
    pub open spec fn any_capability(self) -> bool {
        self.has_keyboard || self.has_mouse || self.has_consumer
    }

    /// Whether any of the three report IDs is known.
    pub open spec fn knows_report_ids(self) -> bool {
        self.keyboard_report_id is Some || self.mouse_report_id is Some
            || self.consumer_report_id is Some
    }

    /// The kind that a report ID stands for: keyboard first, then mouse,
    /// then consumer.
    pub open spec fn kind_of(self, report_id: u8) -> Option<ReportKind> {
        if self.keyboard_report_id == Some(report_id) {
            Some(ReportKind::Keyboard)
        } else if self.mouse_report_id == Some(report_id) {
            Some(ReportKind::Mouse)
        } else if self.consumer_report_id == Some(report_id) {
            Some(ReportKind::Consumer)
        } else {
            None
        }
    }

    /// What an Input item adds to the descriptor when it is met under the
    /// given usage page, usage and report ID. A report ID is adopted only if
    /// it is not zero and none was adopted for that capability before.
    pub open spec fn with_input(self, page: UsagePage, usage: u16, report_id: u8) -> HidDescriptor {
        match page {
            UsagePage::Keyboard => HidDescriptor {
                has_keyboard: true,
                keyboard_report_id: if report_id != 0 && self.keyboard_report_id is None {
                    Some(report_id)
                } else {
                    self.keyboard_report_id
                },
                ..self
            },
            UsagePage::GenericDesktop => if usage == 0x01 || usage == 0x02 {
                HidDescriptor {
                    has_mouse: true,
                    mouse_report_id: if report_id != 0 && self.mouse_report_id is None {
                        Some(report_id)
                    } else {
                        self.mouse_report_id
                    },
                    ..self
                }
            } else {
                self
            },
            UsagePage::Consumer => HidDescriptor {
                has_consumer: true,
                consumer_report_id: if report_id != 0 && self.consumer_report_id is None {
                    Some(report_id)
                } else {
                    self.consumer_report_id
                },
                ..self
            },
            _ => self,
        }
    }

    /// The summary of a whole report descriptor, if it shows any of the
    /// three capabilities.
    pub open spec fn parsed(data: Seq<u8>) -> Option<HidDescriptor> {
        let found = WalkState::initial().after_all(items_from(data, 0)).found;
        if found.any_capability() {
            Some(found)
        } else {
            None
        }
    }

    /// Whether the descriptor names a report ID for any capability.
    pub fn has_report_ids(&self) -> (known: bool)
        ensures
            known == self.knows_report_ids(),
    {
        self.keyboard_report_id.is_some() || self.mouse_report_id.is_some()
            || self.consumer_report_id.is_some()
    }

    /// The kind of report that `report_id` announces, if the descriptor
    /// names that ID.
    pub fn report_kind_for_id(&self, report_id: u8) -> (kind: Option<ReportKind>)
        ensures
            kind == self.kind_of(report_id),
    {
        if id_is(self.keyboard_report_id, report_id) {
            return Some(ReportKind::Keyboard);
        }
        if id_is(self.mouse_report_id, report_id) {
            return Some(ReportKind::Mouse);
        }
        if id_is(self.consumer_report_id, report_id) {
            return Some(ReportKind::Consumer);
        }
        None
    }

    /// Parse a HID Report Descriptor.
    ///
    /// Returns `None` if none of the three capabilities was observed. A
    /// truncated descriptor is read up to its last complete item.
    pub fn parse(data: &[u8]) -> (descriptor: Option<Self>)
        ensures
            descriptor == Self::parsed(data@),
            descriptor is Some ==> descriptor.unwrap().well_formed()
                && descriptor.unwrap().any_capability(),
    {
        let mut state = WalkState {
            usage_page: UsagePage::Unknown(0),
            usage: 0,
            report_id: 0,
            found: HidDescriptor {
                has_keyboard: false,
                has_mouse: false,
                has_consumer: false,
                keyboard_report_id: None,
                mouse_report_id: None,
                consumer_report_id: None,
            },
        };
        let mut i: usize = 0;
        while i < data.len()
            invariant_except_break
                i <= data.len(),
                WalkState::initial().after_all(items_from(data@, 0)) == state.after_all(
                    items_from(data@, i as int),
                ),
            invariant
                state.found.well_formed(),
            ensures
                WalkState::initial().after_all(items_from(data@, 0)) == state,
            decreases data.len() - i,
        {
            let prefix = data[i];
            let tag = prefix >> 4;
            let kind = (prefix >> 2) & 0x03;
            let code = prefix & 0x03;
            assert(tag == prefix / 16 && kind == (prefix / 4) % 4 && code == prefix % 4)
                by (bit_vector)
                requires
                    tag == prefix >> 4,
                    kind == (prefix >> 2) & 0x03,
                    code == prefix & 0x03,
            ;
            let size: usize = if code == 3 {
                4
            } else {
                code as usize
            };
            if size > data.len() - i - 1 {
                break ;
            }
            let value: u32 = if size == 1 {
                data[i + 1] as u32
            } else if size == 2 {
                (data[i + 1] as u32) + 256 * (data[i + 2] as u32)
            } else if size == 4 {
                (data[i + 1] as u32) + 256 * (data[i + 2] as u32) + 65536 * (data[i + 3] as u32)
                    + 16777216 * (data[i + 4] as u32)
            } else {
                0
            };
            proof {
                let rest = items_from(data@, i + 1 + size);
                let item = item_at(data@, i as int);
                assert((seq![item] + rest).drop_first() =~= rest);
                lemma_step_keeps_well_formed(state, item);
            }
            state = state.absorb(tag, kind, value);
            i += 1 + size;
        }
        if state.found.has_keyboard || state.found.has_mouse || state.found.has_consumer {
            Some(state.found)
        } else {
            None
        }
    }
}

impl WalkState {
    /// The state before the first item: no usage page, usage zero, report
    /// ID zero, nothing found.
    pub open spec fn initial() -> WalkState {
        WalkState {
            usage_page: UsagePage::Unknown(0),
            usage: 0,
            report_id: 0,
            found: HidDescriptor::blank(),
        }
    }

    /// The state after one item.
    ///
    /// - Main item, tag 8 (Input): records what the current usage page shows.
    /// - Global item, tag 0 (Usage Page): sets the usage page.
    /// - Global item, tag 8 (Report ID): sets the report ID.
    /// - Local item, tag 0 (Usage): sets the usage.
    /// - Every other item leaves the state as it is.
    pub open spec fn after(self, item: ShortItem) -> WalkState {
        if item.kind == 0 && item.tag == 0x08 {
            WalkState {
                found: self.found.with_input(self.usage_page, self.usage, self.report_id),
                ..self
            }
        } else if item.kind == 1 && item.tag == 0x00 {
            WalkState { usage_page: UsagePage::of_code(low16(item.value)), ..self }
        } else if item.kind == 1 && item.tag == 0x08 {
            WalkState { report_id: low8(item.value), ..self }
        } else if item.kind == 2 && item.tag == 0x00 {
            WalkState { usage: low16(item.value), ..self }
        } else {
            self
        }
    }

    /// The state after a list of items, taken in order.
    pub open spec fn after_all(self, items: Seq<ShortItem>) -> WalkState
        decreases items.len(),
    {
        if items.len() == 0 {
            self
        } else {
            self.after(items[0]).after_all(items.drop_first())
        }
    }

    /// Takes one item into the state.
    fn absorb(self, tag: u8, kind: u8, value: u32) -> (next: WalkState)
        ensures
            next == self.after(ShortItem { tag, kind, value }),
    {
        let mut next = self;
        if kind == 0 {
            if tag == 0x08 {
                next.found = next.found.record_input(next.usage_page, next.usage, next.report_id);
            }
        } else if kind == 1 {
            if tag == 0x00 {
                next.usage_page = UsagePage::from(truncate16(value));
            } else if tag == 0x08 {
                next.report_id = truncate8(value);
            }
        } else if kind == 2 {
            if tag == 0x00 {
                next.usage = truncate16(value);
            }
        }
        next
    }
}

impl HidDescriptor {
    /// Records what an Input item shows under the given usage page, usage
    /// and report ID.
    fn record_input(self, page: UsagePage, usage: u16, report_id: u8) -> (next: HidDescriptor)
        ensures
            next == self.with_input(page, usage, report_id),
    {
        let mut next = self;
        match page {
            UsagePage::Keyboard => {
                next.has_keyboard = true;
                if report_id != 0 && next.keyboard_report_id.is_none() {
                    next.keyboard_report_id = Some(report_id);
                }
            },
            UsagePage::GenericDesktop => {
                match DesktopUsage::from(usage) {
                    DesktopUsage::Mouse | DesktopUsage::Pointer => {
                        next.has_mouse = true;
                        if report_id != 0 && next.mouse_report_id.is_none() {
                            next.mouse_report_id = Some(report_id);
                        }
                    },
                    _ => {},
                }
            },
            UsagePage::Consumer => {
                next.has_consumer = true;
                if report_id != 0 && next.consumer_report_id.is_none() {
                    next.consumer_report_id = Some(report_id);
                }
            },
            _ => {},
        }
        next
    }
}

/// Whether an optional report ID is present and equal to `report_id`.
fn id_is(known: Option<u8>, report_id: u8) -> (same: bool)
    ensures
        same == (known == Some(report_id)),
{
    match known {
        Some(id) => id == report_id,
        None => false,
    }
}

/// The low sixteen bits of a value.
fn truncate16(value: u32) -> (low: u16)
    ensures
        low == low16(value),
{
    let low = (value & 0xffff) as u16;
    assert(low == (value % 0x1_0000) as u16) by (bit_vector)
        requires
            low == (value & 0xffff) as u16,
    ;
    low
}

/// The low eight bits of a value.
fn truncate8(value: u32) -> (low: u8)
    ensures
        low == low8(value),
{
    let low = (value & 0xff) as u8;
    assert(low == (value % 0x100) as u8) by (bit_vector)
        requires
            low == (value & 0xff) as u8,
    ;
    low
}

/// Whether an item is an Input main item.
pub open spec fn is_input(item: ShortItem) -> bool {
    item.kind == 0 && item.tag == 0x08
}

/// The usage page in force at item `k`: that of the latest Usage Page item
/// before it.
pub open spec fn page_in_force(items: Seq<ShortItem>, k: int) -> UsagePage
    decreases k,
{
    if k <= 0 {
        UsagePage::Unknown(0)
    } else if items[k - 1].kind == 1 && items[k - 1].tag == 0x00 {
        UsagePage::of_code(low16(items[k - 1].value))
    } else {
        page_in_force(items, k - 1)
    }
}

/// The usage in force at item `k`: that of the latest Usage item before it.
pub open spec fn usage_in_force(items: Seq<ShortItem>, k: int) -> u16
    decreases k,
{
    if k <= 0 {
        0
    } else if items[k - 1].kind == 2 && items[k - 1].tag == 0x00 {
        low16(items[k - 1].value)
    } else {
        usage_in_force(items, k - 1)
    }
}

/// The report ID in force at item `k`: that of the latest Report ID item
/// before it, and zero if there is none.
pub open spec fn report_id_in_force(items: Seq<ShortItem>, k: int) -> u8
    decreases k,
{
    if k <= 0 {
        0
    } else if items[k - 1].kind == 1 && items[k - 1].tag == 0x08 {
        low8(items[k - 1].value)
    } else {
        report_id_in_force(items, k - 1)
    }
}

/// Whether item `k` is an Input item that shows a report of the given
/// kind: one under the Keyboard page, one under the Generic Desktop page
/// with usage Pointer or Mouse, or one under the Consumer page.
pub open spec fn shows(items: Seq<ShortItem>, k: int, kind: ReportKind) -> bool {
    &&& 0 <= k < items.len()
    &&& is_input(items[k])
    &&& match kind {
        ReportKind::Keyboard => page_in_force(items, k) == UsagePage::Keyboard,
        ReportKind::Mouse => page_in_force(items, k) == UsagePage::GenericDesktop && (
        usage_in_force(items, k) == 0x01 || usage_in_force(items, k) == 0x02),
        ReportKind::Consumer => page_in_force(items, k) == UsagePage::Consumer,
    }
}

/// Whether item `k` is the first that shows a report of the given kind
/// under a report ID.
pub open spec fn adopts(items: Seq<ShortItem>, k: int, kind: ReportKind) -> bool {
    &&& shows(items, k, kind)
    &&& report_id_in_force(items, k) != 0
    &&& forall|j: int|
        0 <= j < k && #[trigger] shows(items, j, kind) ==> report_id_in_force(items, j) == 0
}

impl HidDescriptor {
    /// Whether the descriptor shows a report of the given kind.
    pub open spec fn has(self, kind: ReportKind) -> bool {
        match kind {
            ReportKind::Keyboard => self.has_keyboard,
            ReportKind::Mouse => self.has_mouse,
            ReportKind::Consumer => self.has_consumer,
        }
    }

    /// The report ID that the descriptor names for the given kind.
    pub open spec fn id_of(self, kind: ReportKind) -> Option<u8> {
        match kind {
            ReportKind::Keyboard => self.keyboard_report_id,
            ReportKind::Mouse => self.mouse_report_id,
            ReportKind::Consumer => self.consumer_report_id,
        }
    }
}

/// Taking items in order, the last one is taken last.
pub proof fn lemma_after_all_last(state: WalkState, items: Seq<ShortItem>)
    requires
        items.len() > 0,
    ensures
        state.after_all(items) == state.after_all(items.drop_last()).after(items.last()),
    decreases items.len(),
{
    if items.len() == 1 {
        assert(items.drop_first() =~= Seq::<ShortItem>::empty());
        assert(items.drop_last() =~= Seq::<ShortItem>::empty());
        assert(state.after(items[0]).after_all(items.drop_first()) == state.after(items[0]));
        assert(state.after_all(items.drop_last()) == state);
    } else {
        lemma_after_all_last(state.after(items[0]), items.drop_first());
        assert(items.drop_first().drop_last() =~= items.drop_last().drop_first());
        assert(items.drop_last()[0] == items[0]);
        assert(items.drop_first().last() == items.last());
    }
}

/// What is in force at an item depends only on the items before it.
pub proof fn lemma_in_force_of_prefix(items: Seq<ShortItem>, n: int, k: int)
    requires
        0 <= k <= n <= items.len(),
    ensures
        page_in_force(items.take(n), k) == page_in_force(items, k),
        usage_in_force(items.take(n), k) == usage_in_force(items, k),
        report_id_in_force(items.take(n), k) == report_id_in_force(items, k),
    decreases k,
{
    if k > 0 {
        lemma_in_force_of_prefix(items, n, k - 1);
        assert(items.take(n)[k - 1] == items[k - 1]);
    }
}

/// Whether an item shows a report depends only on the items up to it.
pub proof fn lemma_shows_of_prefix(items: Seq<ShortItem>, n: int, k: int, kind: ReportKind)
    requires
        0 <= k < n <= items.len(),
    ensures
        shows(items.take(n), k, kind) == shows(items, k, kind),
{
    lemma_in_force_of_prefix(items, n, k);
    assert(items.take(n)[k] == items[k]);
}

/// After all items the parser remembers what is in force behind the last.
pub proof fn lemma_state_is_in_force(items: Seq<ShortItem>)
    ensures
        WalkState::initial().after_all(items).usage_page == page_in_force(
            items,
            items.len() as int,
        ),
        WalkState::initial().after_all(items).usage == usage_in_force(items, items.len() as int),
        WalkState::initial().after_all(items).report_id == report_id_in_force(
            items,
            items.len() as int,
        ),
    decreases items.len(),
{
    if items.len() > 0 {
        let n = items.len() as int;
        lemma_after_all_last(WalkState::initial(), items);
        lemma_state_is_in_force(items.drop_last());
        assert(items.drop_last() =~= items.take(n - 1));
        lemma_in_force_of_prefix(items, n - 1, n - 1);
    }
}

/// What the parser has found after all items, in terms of the items
/// themselves: a capability is found exactly if some Input item shows it,
/// and the report ID of a capability is the one in force at the first
/// Input item that shows the capability under a report ID.
pub proof fn lemma_found_is_what_items_show(items: Seq<ShortItem>, kind: ReportKind)
    ensures
        WalkState::initial().after_all(items).found.has(kind) <==> exists|k: int|
            shows(items, k, kind),
        forall|id: u8|
            WalkState::initial().after_all(items).found.id_of(kind) == Some(id) <==> exists|k: int|
                adopts(items, k, kind) && report_id_in_force(items, k) == id,
        WalkState::initial().after_all(items).found.id_of(kind) is None <==> forall|k: int|
            #[trigger] shows(items, k, kind) ==> report_id_in_force(items, k) == 0,
    decreases items.len(),
{
    let found = WalkState::initial().after_all(items).found;
    if items.len() == 0 {
        assert(found == HidDescriptor::blank());
    } else {
        let n = items.len() as int;
        let front = items.drop_last();
        let last = items.last();
        let before = WalkState::initial().after_all(front);
        lemma_after_all_last(WalkState::initial(), items);
        lemma_found_is_what_items_show(front, kind);
        lemma_state_is_in_force(front);
        assert(front =~= items.take(n - 1));
        lemma_in_force_of_prefix(items, n - 1, n - 1);
        assert forall|k: int| 0 <= k < n - 1 implies #[trigger] shows(front, k, kind) == shows(
            items,
            k,
            kind,
        ) && report_id_in_force(front, k) == report_id_in_force(items, k) by {
            lemma_shows_of_prefix(items, n - 1, k, kind);
            lemma_in_force_of_prefix(items, n - 1, k);
        }
        assert forall|k: int| 0 <= k < n - 1 implies shows(front, k, kind) == #[trigger] shows(
            items,
            k,
            kind,
        ) && report_id_in_force(front, k) == report_id_in_force(items, k) by {
            lemma_shows_of_prefix(items, n - 1, k, kind);
            lemma_in_force_of_prefix(items, n - 1, k);
        }
        let shown_last = shows(items, n - 1, kind);
        let id_last = report_id_in_force(items, n - 1);
        assert(found.has(kind) == (before.found.has(kind) || shown_last));
        assert(found.id_of(kind) == if shown_last && id_last != 0 && before.found.id_of(kind)
            is None {
            Some(id_last)
        } else {
            before.found.id_of(kind)
        });
        // A capability is found exactly if some Input item shows it.
        if exists|k: int| shows(front, k, kind) {
            let k = choose|k: int| shows(front, k, kind);
            assert(shows(items, k, kind));
        }
        if exists|k: int| shows(items, k, kind) {
            let k = choose|k: int| shows(items, k, kind);
            if k < n - 1 {
                assert(shows(front, k, kind));
            }
        }
        // No report ID is named exactly if no Input item shows the
        // capability under one.
        if found.id_of(kind) is None {
            assert forall|k: int| #[trigger] shows(items, k, kind) implies report_id_in_force(
                items,
                k,
            ) == 0 by {
                if k < n - 1 {
                    assert(shows(front, k, kind));
                }
            }
        } else {
            if before.found.id_of(kind) is Some {
                let k = choose|k: int|
                    #[trigger] shows(front, k, kind) && report_id_in_force(front, k) != 0;
                assert(shows(items, k, kind) && report_id_in_force(items, k) != 0);
            } else {
                assert(shows(items, n - 1, kind) && report_id_in_force(items, n - 1) != 0);
            }
        }
        // The report ID is that of the first Input item that shows the
        // capability under one.
        assert forall|id: u8| found.id_of(kind) == Some(id) <==> exists|k: int|
            adopts(items, k, kind) && report_id_in_force(items, k) == id by {
            if found.id_of(kind) == Some(id) {
                if before.found.id_of(kind) is Some {
                    let k = choose|k: int|
                        adopts(front, k, kind) && report_id_in_force(front, k) == id;
                    assert forall|j: int| 0 <= j < k && #[trigger] shows(
                        items,
                        j,
                        kind,
                    ) implies report_id_in_force(items, j) == 0 by {
                        assert(shows(front, j, kind));
                    }
                    assert(adopts(items, k, kind) && report_id_in_force(items, k) == id);
                } else {
                    assert forall|j: int| 0 <= j < n - 1 && #[trigger] shows(
                        items,
                        j,
                        kind,
                    ) implies report_id_in_force(items, j) == 0 by {
                        assert(shows(front, j, kind));
                    }
                    assert(adopts(items, n - 1, kind) && report_id_in_force(items, n - 1) == id);
                }
            }
            if exists|k: int| adopts(items, k, kind) && report_id_in_force(items, k) == id {
                let k = choose|k: int| adopts(items, k, kind) && report_id_in_force(items, k) == id;
                if k < n - 1 {
                    assert forall|j: int| 0 <= j < k && #[trigger] shows(
                        front,
                        j,
                        kind,
                    ) implies report_id_in_force(front, j) == 0 by {
                        assert(shows(items, j, kind));
                    }
                    assert(adopts(front, k, kind) && report_id_in_force(front, k) == id);
                    assert(before.found.id_of(kind) == Some(id));
                } else {
                    assert(k == n - 1);
                    if before.found.id_of(kind) is Some {
                        let j = choose|j: int|
                            #[trigger] shows(front, j, kind) && report_id_in_force(front, j) != 0;
                        assert(shows(items, j, kind));
                        assert(false);
                    }
                }
            }
        }
    }
}

/// What a descriptor's summary says, in terms of its items.
pub proof fn lemma_parsed_is_what_items_show(data: Seq<u8>, kind: ReportKind)
    ensures
        HidDescriptor::parsed(data) is Some <==> exists|k: int, any: ReportKind|
            shows(items_from(data, 0), k, any),
        HidDescriptor::parsed(data) is Some ==> (HidDescriptor::parsed(data).unwrap().has(kind)
            <==> exists|k: int| shows(items_from(data, 0), k, kind)),
        HidDescriptor::parsed(data) is Some ==> forall|id: u8|
            HidDescriptor::parsed(data).unwrap().id_of(kind) == Some(id) <==> exists|k: int|
                adopts(items_from(data, 0), k, kind) && report_id_in_force(
                    items_from(data, 0),
                    k,
                ) == id,
{
    let items = items_from(data, 0);
    lemma_found_is_what_items_show(items, kind);
    lemma_found_is_what_items_show(items, ReportKind::Keyboard);
    lemma_found_is_what_items_show(items, ReportKind::Mouse);
    lemma_found_is_what_items_show(items, ReportKind::Consumer);
    let found = WalkState::initial().after_all(items).found;
    if exists|k: int, any: ReportKind| shows(items, k, any) {
        let (k, any) = choose|k: int, any: ReportKind| shows(items, k, any);
        assert(found.has(any));
    }
    if found.any_capability() {
        if found.has_keyboard {
            let k = choose|k: int| shows(items, k, ReportKind::Keyboard);
            assert(shows(items, k, ReportKind::Keyboard));
        } else if found.has_mouse {
            let k = choose|k: int| shows(items, k, ReportKind::Mouse);
            assert(shows(items, k, ReportKind::Mouse));
        } else {
            let k = choose|k: int| shows(items, k, ReportKind::Consumer);
            assert(shows(items, k, ReportKind::Consumer));
        }
    }
}

/// One item keeps a well-formed summary well-formed.
pub proof fn lemma_step_keeps_well_formed(state: WalkState, item: ShortItem)
    requires
        state.found.well_formed(),
    ensures
        state.after(item).found.well_formed(),
{
}

/// No list of items can break the rule that a report ID is recorded only
/// together with its capability.
pub proof fn lemma_walk_keeps_well_formed(state: WalkState, items: Seq<ShortItem>)
    requires
        state.found.well_formed(),
    ensures
        state.after_all(items).found.well_formed(),
    decreases items.len(),
{
    if items.len() > 0 {
        lemma_step_keeps_well_formed(state, items[0]);
        lemma_walk_keeps_well_formed(state.after(items[0]), items.drop_first());
    }
}

/// Every descriptor that parses obeys the rule that a report ID is recorded
/// only together with its capability.
pub proof fn lemma_parsed_is_well_formed(data: Seq<u8>)
    ensures
        HidDescriptor::parsed(data) is Some ==> HidDescriptor::parsed(data).unwrap().well_formed(),
{
    lemma_walk_keeps_well_formed(WalkState::initial(), items_from(data, 0));
}

} // verus!
