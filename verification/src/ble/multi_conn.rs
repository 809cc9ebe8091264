//! Multi-device BLE connection manager.
//!
//! Supports up to two concurrent BLE HID peripheral links (typical:
//! keyboard + mouse). The manager keeps the two connection slots; the
//! coordinator decides, for each command from the UI and each event from a
//! slot worker, how the slots change and what is to be sent to whom.

use vstd::prelude::*;
use vstd::utf8::encode_utf8;

use crate::ble::{BleErrorTag, DeviceAddress, DeviceRecord, DiscoveredDevice};
use crate::bounded::{
    listed_names, name_bytes, name_clone, name_new, name_push, name_push_str, names_as_slice,
    names_new, names_push,
};

verus! {

/// Maximum simultaneous BLE connections.
pub const MAX_CONNECTIONS: usize = 2;

/// What the coordinator tells a slot worker to do.
#[derive(Debug)]
pub enum SlotCommand {
    Connect(DiscoveredDevice),
    Disconnect,
}

/// The mathematical value of a [`SlotCommand`].
pub enum SlotCommandView {
    Connect(DeviceRecord),
    Disconnect,
}

impl View for SlotCommand {
    type V = SlotCommandView;

    open spec fn view(&self) -> SlotCommandView {
        match self {
            SlotCommand::Connect(d) => SlotCommandView::Connect(d@),
            SlotCommand::Disconnect => SlotCommandView::Disconnect,
        }
    }
}

impl Clone for SlotCommand {
    fn clone(&self) -> (copy: Self)
        ensures
            copy@ == self@,
    {
        match self {
            SlotCommand::Connect(d) => SlotCommand::Connect(d.clone()),
            SlotCommand::Disconnect => SlotCommand::Disconnect,
        }
    }
}

/// What a slot worker reports to the coordinator.
#[derive(Debug)]
pub enum SlotEvent {
    Connected { slot: usize, device: DiscoveredDevice },
    Disconnected { slot: usize },
    Error { slot: usize, tag: BleErrorTag },
}

/// The mathematical value of a [`SlotEvent`].
pub enum SlotEventView {
    Connected { slot: usize, device: DeviceRecord },
    Disconnected { slot: usize },
    Error { slot: usize, tag: BleErrorTag },
}

impl View for SlotEvent {
    type V = SlotEventView;

    open spec fn view(&self) -> SlotEventView {
        match self {
            SlotEvent::Connected { slot, device } => SlotEventView::Connected {
                slot: *slot,
                device: device@,
            },
            SlotEvent::Disconnected { slot } => SlotEventView::Disconnected { slot: *slot },
            SlotEvent::Error { slot, tag } => SlotEventView::Error { slot: *slot, tag: *tag },
        }
    }
}

impl Clone for SlotEvent {
    fn clone(&self) -> (copy: Self)
        ensures
            copy@ == self@,
    {
        match self {
            SlotEvent::Connected { slot, device } => SlotEvent::Connected {
                slot: *slot,
                device: device.clone(),
            },
            SlotEvent::Disconnected { slot } => SlotEvent::Disconnected { slot: *slot },
            SlotEvent::Error { slot, tag } => SlotEvent::Error { slot: *slot, tag: *tag },
        }
    }
}

/// One connection slot.
#[derive(Debug)]
pub struct ConnectionSlot {
    pub address: Option<DeviceAddress>,
    pub name: heapless::String<32>,
    pub connected: bool,
}

/// The mathematical value of a [`ConnectionSlot`].
pub struct SlotView {
    pub address: Option<DeviceAddress>,
    pub name: Seq<u8>,
    pub connected: bool,
}

impl SlotView {
    /// The slot that holds no connection.
    pub open spec fn vacant() -> SlotView {
        SlotView { address: None, name: Seq::empty(), connected: false }
    }

    /// The slot that holds a connection to `device`.
    pub open spec fn holding(device: DeviceRecord) -> SlotView {
        SlotView { address: Some(device.address), name: device.name, connected: true }
    }

    /// Whether the slot is connected to the given address.
    pub open spec fn holds(self, address: DeviceAddress) -> bool {
        self.connected && self.address == Some(address)
    }
}

impl View for ConnectionSlot {
    type V = SlotView;

    open spec fn view(&self) -> SlotView {
        SlotView { address: self.address, name: name_bytes(self.name), connected: self.connected }
    }
}

impl Clone for ConnectionSlot {
    fn clone(&self) -> (copy: Self)
        ensures
            copy@ == self@,
    {
        ConnectionSlot {
            address: self.address,
            name: name_clone(&self.name),
            connected: self.connected,
        }
    }
}

impl ConnectionSlot {
    /// A slot that holds no connection.
    pub fn empty() -> (slot: Self)
        ensures
            slot@ == SlotView::vacant(),
    {
        Self { address: None, name: name_new(), connected: false }
    }
}

/// The number of connected slots.
pub open spec fn count_connected(slots: Seq<SlotView>) -> nat
    decreases slots.len(),
{
    if slots.len() == 0 {
        0
    } else {
        count_connected(slots.drop_last()) + if slots.last().connected {
            1nat
        } else {
            0nat
        }
    }
}

/// The first slot that is not connected.
pub open spec fn first_vacant(slots: Seq<SlotView>) -> Option<int> {
    if slots.len() > 0 && !slots[0].connected {
        Some(0)
    } else if slots.len() > 1 && !slots[1].connected {
        Some(1)
    } else {
        None
    }
}

/// Whether some slot is connected to the given address.
pub open spec fn address_connected(slots: Seq<SlotView>, address: DeviceAddress) -> bool {
    exists|i: int| 0 <= i < slots.len() && (#[trigger] slots[i]).holds(address)
}

/// The names of the connected slots, in slot order.
pub open spec fn connected_names(slots: Seq<SlotView>) -> Seq<Seq<u8>>
    decreases slots.len(),
{
    if slots.len() == 0 {
        Seq::empty()
    } else if slots.last().connected {
        connected_names(slots.drop_last()).push(slots.last().name)
    } else {
        connected_names(slots.drop_last())
    }
}

/// The two slots are sound: a slot has an address exactly when it is
/// connected, and the two do not hold the same address.
pub open spec fn slots_sound(slots: Seq<SlotView>) -> bool {
    &&& slots.len() == 2
    &&& forall|i: int| 0 <= i < 2 ==> ((#[trigger] slots[i]).connected <==> slots[i].address is Some)
    &&& !(slots[0].connected && slots[1].connected && slots[0].address == slots[1].address)
}

/// Keeps the two connection slots.
pub struct MultiConnectionManager {
    slots: [ConnectionSlot; 2],
}

impl View for MultiConnectionManager {
    type V = Seq<SlotView>;

    closed spec fn view(&self) -> Seq<SlotView> {
        self.slots@.map_values(|s: ConnectionSlot| s@)
    }
}

impl MultiConnectionManager {
    /// A manager always has two slots.
    pub proof fn lemma_two_slots(&self)
        ensures
            self@.len() == 2,
    {
    }

    /// A manager whose two slots hold no connection.
    pub fn new() -> (manager: Self)
        ensures
            manager@ == seq![SlotView::vacant(), SlotView::vacant()],
    {
        let manager = Self { slots: [ConnectionSlot::empty(), ConnectionSlot::empty()] };
        assert(manager@ =~= seq![SlotView::vacant(), SlotView::vacant()]);
        manager
    }

    /// The first slot that is not connected.
    pub fn find_empty_slot(&self) -> (slot: Option<usize>)
        ensures
            match slot {
                Some(i) => first_vacant(self@) == Some(i as int),
                None => first_vacant(self@) is None,
            },
    {
        if !self.slots[0].connected {
            Some(0)
        } else if !self.slots[1].connected {
            Some(1)
        } else {
            None
        }
    }

    /// The number of connected slots.
    pub fn active_count(&self) -> (count: usize)
        ensures
            count == count_connected(self@),
            count <= 2,
    {
        proof {
            lemma_count_two(self@);
        }
        let mut count: usize = 0;
        if self.slots[0].connected {
            count += 1;
        }
        if self.slots[1].connected {
            count += 1;
        }
        count
    }

    /// Whether some slot is connected to the given address.
    pub fn is_connected_address(&self, address: &DeviceAddress) -> (connected: bool)
        ensures
            connected == address_connected(self@, *address),
    {
        let mut i: usize = 0;
        while i < 2
            invariant
                i <= 2,
                self@.len() == 2,
                forall|k: int| 0 <= k < i ==> !(#[trigger] self@[k]).holds(*address),
            decreases 2 - i,
        {
            if self.slots[i].connected {
                match self.slots[i].address {
                    Some(held) => {
                        if held == *address {
                            assert(self@[i as int].holds(*address));
                            return true;
                        }
                    },
                    None => {},
                }
            }
            i += 1;
        }
        false
    }

    /// Whether the given slot is connected; a slot that does not exist is
    /// not.
    pub fn is_slot_connected(&self, slot: usize) -> (connected: bool)
        ensures
            connected == (slot < 2 && self@[slot as int].connected),
    {
        slot < MAX_CONNECTIONS && self.slots[slot].connected
    }

    /// Marks the slot as connected to `device`. A slot that does not exist
    /// is ignored.
    pub fn connect_slot(&mut self, slot: usize, device: &DiscoveredDevice)
        ensures
            final(self)@ == if slot < 2 {
                old(self)@.update(slot as int, SlotView::holding(device@))
            } else {
                old(self)@
            },
    {
        if slot < MAX_CONNECTIONS {
            self.slots[slot] = ConnectionSlot {
                address: Some(device.address),
                name: name_clone(&device.name),
                connected: true,
            };
            assert(self@ =~= old(self)@.update(slot as int, SlotView::holding(device@)));
        }
    }

    /// Marks the slot as holding no connection. A slot that does not exist
    /// is ignored.
    pub fn disconnect_slot(&mut self, slot: usize)
        ensures
            final(self)@ == if slot < 2 {
                old(self)@.update(slot as int, SlotView::vacant())
            } else {
                old(self)@
            },
    {
        if slot < MAX_CONNECTIONS {
            self.slots[slot] = ConnectionSlot::empty();
            assert(self@ =~= old(self)@.update(slot as int, SlotView::vacant()));
        }
    }

    /// The names of the connected slots, in slot order.
    pub fn get_connected_names(&self) -> (names: heapless::Vec<heapless::String<32>, 2>)
        ensures
            listed_names(names) == connected_names(self@),
    {
        let mut names = names_new();
        let mut i: usize = 0;
        while i < 2
            invariant
                i <= 2,
                self@.len() == 2,
                listed_names(names).len() <= i,
                listed_names(names) == connected_names(self@.take(i as int)),
            decreases 2 - i,
        {
            proof {
                assert(self@.take(i + 1).drop_last() =~= self@.take(i as int));
            }
            if self.slots[i].connected {
                let name = name_clone(&self.slots[i].name);
                let _ = names_push(&mut names, name);
            }
            i += 1;
        }
        proof {
            assert(self@.take(2) =~= self@);
        }
        names
    }
}

/// The decimal digits of a number, as ASCII bytes.
pub open spec fn decimal(n: nat) -> Seq<u8>
    decreases n,
{
    if n < 10 {
        seq![(0x30 + n) as u8]
    } else {
        decimal(n / 10).push((0x30 + n % 10) as u8)
    }
}

/// The line that sums up the connections for the UI: the name of the one
/// connected device, "Connected" if none is connected, and the count
/// followed by " devices" if there are several.
pub open spec fn summary_of(slots: Seq<SlotView>) -> Seq<u8> {
    let names = connected_names(slots);
    if names.len() == 0 {
        encode_utf8("Connected"@)
    } else if names.len() == 1 {
        names[0]
    } else {
        decimal(names.len()) + encode_utf8(" devices"@)
    }
}

/// The line that sums up the connections for the UI.
pub fn connection_summary(manager: &MultiConnectionManager) -> (summary: heapless::String<32>)
    ensures
        name_bytes(summary) == summary_of(manager@),
{
    let list = manager.get_connected_names();
    let names = names_as_slice(&list);
    let count = names.len();
    if count == 0 {
        let mut summary = name_new();
        proof {
            reveal_strlit("Connected");
            assert(vstd::utf8::is_ascii_chars("Connected"@));
            vstd::utf8::is_ascii_chars_encode_utf8("Connected"@);
        }
        let _ = name_push_str(&mut summary, "Connected");
        summary
    } else if count == 1 {
        name_clone(&names[0])
    } else {
        let mut summary = name_new();
        let digit = digit_char(count);
        let _ = name_push(&mut summary, digit);
        proof {
            reveal_strlit(" devices");
            assert(vstd::utf8::is_ascii_chars(" devices"@));
            vstd::utf8::is_ascii_chars_encode_utf8(" devices"@);
        }
        let _ = name_push_str(&mut summary, " devices");
        summary
    }
}

/// The character of a single decimal digit.
fn digit_char(n: usize) -> (c: char)
    requires
        n < 10,
    ensures
        vstd::utf8::encode_scalar(c as u32) == decimal(n as nat),
{
    let c = (0x30 + n as u8) as char;
    proof {
        let s = c as u32;
        assert((s & 0x7F) as u8 == s as u8) by (bit_vector)
            requires
                s < 0x80,
        ;
        assert(vstd::utf8::encode_scalar(s) =~= decimal(n as nat));
    }
    c
}

/// Two slots hold at most two connections.
pub proof fn lemma_count_two(slots: Seq<SlotView>)
    requires
        slots.len() == 2,
    ensures
        count_connected(slots) == (if slots[0].connected {
            1nat
        } else {
            0nat
        }) + (if slots[1].connected {
            1nat
        } else {
            0nat
        }),
        count_connected(slots) <= 2,
{
    let one = slots.drop_last();
    assert(one.len() == 1);
    assert(one.last() == slots[0]);
    assert(one.drop_last().len() == 0);
    assert(count_connected(one.drop_last()) == 0);
    assert(count_connected(one) == if slots[0].connected {
        1nat
    } else {
        0nat
    });
}

} // verus!
