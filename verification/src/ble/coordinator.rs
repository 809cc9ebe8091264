//! Connection coordinator.
//!
//! The coordinator owns the two connection slots and the result of the
//! last scan. It takes one input at a time - a command from the UI, the
//! end of a scan, an event from a slot worker - and answers with what is
//! to be done: commands for the slot workers, events for the UI, a scan to
//! run, the store to save. Carrying that out is the caller's part.

use vstd::prelude::*;

use crate::ble::multi_conn::{
    address_connected, connection_summary, count_connected, first_vacant, lemma_count_two,
    slots_sound, summary_of, MultiConnectionManager, SlotCommand, SlotCommandView, SlotEvent,
    SlotEventView, SlotView,
};
use crate::ble::scanner::ScanResult;
use crate::ble::{BleCommand, BleErrorTag, BleEvent, BleEventView, DeviceRecord, DiscoveredDevice};
use crate::bounded::{name_as_str, name_clone};
use crate::storage::{added, lemma_fitting_text_is_packed_whole, DeviceStore, PairedDevice};

verus! {

/// The mathematical value of a [`Coordinator`]: its two slots and the
/// devices of the scan result it holds, if it holds one.
pub struct CoordinatorView {
    pub slots: Seq<SlotView>,
    pub scan: Option<Seq<DeviceRecord>>,
}

/// What is to be done after a command from the UI, in this order: the
/// commands are sent to the slot workers, the event is sent to the UI, the
/// scan is run.
#[derive(Debug)]
pub struct CommandOutcome {
    /// The command for the worker of slot 0, if any.
    pub to_slot0: Option<SlotCommand>,
    /// The command for the worker of slot 1, if any.
    pub to_slot1: Option<SlotCommand>,
    /// The event for the UI, if any.
    pub event: Option<BleEvent>,
    /// Whether a scan is to be run now.
    pub run_scan: bool,
}

/// The mathematical value of a [`CommandOutcome`].
pub struct CommandOutcomeView {
    pub to_slot0: Option<SlotCommandView>,
    pub to_slot1: Option<SlotCommandView>,
    pub event: Option<BleEventView>,
    pub run_scan: bool,
}

impl View for CommandOutcome {
    type V = CommandOutcomeView;

    open spec fn view(&self) -> CommandOutcomeView {
        CommandOutcomeView {
            to_slot0: match self.to_slot0 {
                Some(c) => Some(c@),
                None => None,
            },
            to_slot1: match self.to_slot1 {
                Some(c) => Some(c@),
                None => None,
            },
            event: match self.event {
                Some(e) => Some(e@),
                None => None,
            },
            run_scan: self.run_scan,
        }
    }
}

impl CommandOutcomeView {
    /// Nothing is to be done.
    pub open spec fn nothing() -> CommandOutcomeView {
        CommandOutcomeView { to_slot0: None, to_slot1: None, event: None, run_scan: false }
    }

    /// Only the event `ConnectFailed` is to be sent to the UI.
    pub open spec fn connect_failed() -> CommandOutcomeView {
        CommandOutcomeView {
            to_slot0: None,
            to_slot1: None,
            event: Some(BleEventView::Error(BleErrorTag::ConnectFailed)),
            run_scan: false,
        }
    }
}

/// What is to be done after an event from a slot worker, in this order:
/// the store is saved, the error is sent to the UI, the status is sent to
/// the UI.
#[derive(Debug)]
pub struct EventOutcome {
    /// Whether the store of paired devices is to be saved.
    pub persist: bool,
    /// The error to send to the UI as an `Error` event, if any.
    pub error: Option<BleErrorTag>,
    /// The status event for the UI.
    pub status: BleEvent,
}

/// The command that disconnects a slot if it is connected and `wanted`.
pub open spec fn disconnect_if(slot: SlotView, wanted: bool) -> Option<SlotCommandView> {
    if wanted && slot.connected {
        Some(SlotCommandView::Disconnect)
    } else {
        None
    }
}

/// The device that a `Connect` command picks from a scan result and the
/// slot it goes to, if the command can be carried out: the index is in
/// range, the device is not yet connected and a slot is vacant.
pub open spec fn connect_target(slots: Seq<SlotView>, found: Seq<DeviceRecord>, index: usize)
    -> Option<(int, DeviceRecord)> {
    if index < found.len() && !address_connected(slots, found[index as int].address)
        && first_vacant(slots) is Some {
        Some((first_vacant(slots).unwrap(), found[index as int]))
    } else {
        None
    }
}

/// The coordinator after a command from the UI.
///
/// Only `Connect` changes it: the scan result is used up, and if the
/// command can be carried out the chosen slot is marked as connected
/// before its worker has answered.
pub open spec fn after_command(state: CoordinatorView, command: BleCommand) -> CoordinatorView {
    match command {
        BleCommand::Connect(index) => match state.scan {
            Some(found) => CoordinatorView {
                slots: match connect_target(state.slots, found, index) {
                    Some((slot, device)) => state.slots.update(slot, SlotView::holding(device)),
                    None => state.slots,
                },
                scan: None,
            },
            None => state,
        },
        _ => state,
    }
}

/// What is to be done after a command from the UI.
///
/// - `StartScan`: if both slots are connected, both are told to
///   disconnect; then a scan is run.
/// - `Connect`: the chosen slot is told to connect to the chosen device.
///   Without a scan result, with an index out of range or without a vacant
///   slot the UI is told `ConnectFailed`; a device that is already connected
///   is passed over in silence.
/// - `Disconnect`: every connected slot is told to disconnect.
pub open spec fn command_outcome(state: CoordinatorView, command: BleCommand)
    -> CommandOutcomeView {
    match command {
        BleCommand::StartScan => CommandOutcomeView {
            to_slot0: disconnect_if(state.slots[0], count_connected(state.slots) >= 2),
            to_slot1: disconnect_if(state.slots[1], count_connected(state.slots) >= 2),
            event: None,
            run_scan: true,
        },
        BleCommand::Connect(index) => match state.scan {
            Some(found) => match connect_target(state.slots, found, index) {
                Some((slot, device)) => CommandOutcomeView {
                    to_slot0: if slot == 0 {
                        Some(SlotCommandView::Connect(device))
                    } else {
                        None
                    },
                    to_slot1: if slot == 1 {
                        Some(SlotCommandView::Connect(device))
                    } else {
                        None
                    },
                    event: None,
                    run_scan: false,
                },
                None => if index < found.len() && address_connected(
                    state.slots,
                    found[index as int].address,
                ) {
                    CommandOutcomeView::nothing()
                } else {
                    CommandOutcomeView::connect_failed()
                },
            },
            None => CommandOutcomeView::connect_failed(),
        },
        BleCommand::Disconnect => CommandOutcomeView {
            to_slot0: disconnect_if(state.slots[0], true),
            to_slot1: disconnect_if(state.slots[1], true),
            event: None,
            run_scan: false,
        },
    }
}

/// The slots after an event from a slot worker: a connected slot is marked
/// as connected to the device, a disconnected or failed slot as vacant. An
/// event about a slot that does not exist changes nothing.
pub open spec fn slots_after_event(slots: Seq<SlotView>, event: SlotEventView) -> Seq<SlotView> {
    match event {
        SlotEventView::Connected { slot, device } => if slot < 2 {
            slots.update(slot as int, SlotView::holding(device))
        } else {
            slots
        },
        SlotEventView::Disconnected { slot } => if slot < 2 {
            slots.update(slot as int, SlotView::vacant())
        } else {
            slots
        },
        SlotEventView::Error { slot, tag } => if slot < 2 {
            slots.update(slot as int, SlotView::vacant())
        } else {
            slots
        },
    }
}

/// The store after an event from a slot worker: a device that connected
/// is added, with the address, name and signal strength that it has in its
/// slot.
pub open spec fn store_after_event(records: Seq<DeviceRecord>, event: SlotEventView) -> Seq<
    DeviceRecord,
> {
    match event {
        SlotEventView::Connected { slot, device } => added(records, device),
        _ => records,
    }
}

/// The status that the UI is told when a connection is gone:
/// `Disconnected` if no slot is connected any more, else the summary of
/// what is.
pub open spec fn presence(slots: Seq<SlotView>) -> BleEventView {
    if count_connected(slots) == 0 {
        BleEventView::Disconnected
    } else {
        BleEventView::Connected(summary_of(slots))
    }
}

/// The status that the UI is told after an event from a slot worker.
pub open spec fn status_after_event(slots: Seq<SlotView>, event: SlotEventView) -> BleEventView {
    match event {
        SlotEventView::Connected { slot, device } => BleEventView::Connected(
            summary_of(slots_after_event(slots, event)),
        ),
        _ => presence(slots_after_event(slots, event)),
    }
}

/// The coordinator of the BLE connections.
pub struct Coordinator {
    manager: MultiConnectionManager,
    last_scan: Option<ScanResult>,
}

impl View for Coordinator {
    type V = CoordinatorView;

    closed spec fn view(&self) -> CoordinatorView {
        CoordinatorView {
            slots: self.manager@,
            scan: match self.last_scan {
                Some(result) => Some(result.records()),
                None => None,
            },
        }
    }
}

impl Coordinator {
    /// A coordinator with two vacant slots and no scan result.
    pub fn new() -> (coordinator: Self)
        ensures
            coordinator@ == (CoordinatorView {
                slots: seq![SlotView::vacant(), SlotView::vacant()],
                scan: None,
            }),
    {
        Self { manager: MultiConnectionManager::new(), last_scan: None }
    }

    /// The connection slots.
    pub fn manager(&self) -> (manager: &MultiConnectionManager)
        ensures
            manager@ == self@.slots,
    {
        &self.manager
    }

    /// Starts the coordinator with the store as it was loaded.
    ///
    /// If the store holds a paired device, slot 0 is marked as connected
    /// to the most recent one and the result is the command that tells its
    /// worker to connect. Otherwise nothing happens.
    pub fn start(&mut self, store: &DeviceStore) -> (to_slot0: Option<SlotCommand>)
        ensures
            final(self)@.scan == old(self)@.scan,
            store.records().len() == 0 ==> to_slot0 is None && final(self)@ == old(self)@,
            store.records().len() > 0 ==> to_slot0 is Some && to_slot0.unwrap()@
                == SlotCommandView::Connect(store.records().last()) && final(self)@.slots == old(
                self,
            )@.slots.update(0, SlotView::holding(store.records().last())),
    {
        match store.first() {
            Some(paired) => {
                let auto = DiscoveredDevice {
                    address: paired.address,
                    name: name_clone(&paired.name),
                    rssi: paired.last_rssi,
                };
                self.manager.connect_slot(0, &auto);
                Some(SlotCommand::Connect(auto))
            },
            None => None,
        }
    }

    /// Carries out a command from the UI.
    pub fn on_command(&mut self, command: BleCommand) -> (outcome: CommandOutcome)
        ensures
            final(self)@ == after_command(old(self)@, command),
            outcome@ == command_outcome(old(self)@, command),
    {
        proof {
            self.manager.lemma_two_slots();
        }
        match command {
            BleCommand::StartScan => {
                let both = self.manager.active_count() >= MAX_SLOTS;
                CommandOutcome {
                    to_slot0: self.disconnect_command(0, both),
                    to_slot1: self.disconnect_command(1, both),
                    event: None,
                    run_scan: true,
                }
            },
            BleCommand::Connect(index) => {
                let scan = match self.last_scan.take() {
                    Some(scan) => scan,
                    None => {
                        return Self::connect_failed();
                    },
                };
                let device = match scan.get(index) {
                    Some(device) => device,
                    None => {
                        return Self::connect_failed();
                    },
                };
                if self.manager.is_connected_address(&device.address) {
                    return CommandOutcome {
                        to_slot0: None,
                        to_slot1: None,
                        event: None,
                        run_scan: false,
                    };
                }
                let slot = match self.manager.find_empty_slot() {
                    Some(slot) => slot,
                    None => {
                        return Self::connect_failed();
                    },
                };
                self.manager.connect_slot(slot, device);
                let connect = SlotCommand::Connect(device.clone());
                if slot == 0 {
                    CommandOutcome {
                        to_slot0: Some(connect),
                        to_slot1: None,
                        event: None,
                        run_scan: false,
                    }
                } else {
                    CommandOutcome {
                        to_slot0: None,
                        to_slot1: Some(connect),
                        event: None,
                        run_scan: false,
                    }
                }
            },
            BleCommand::Disconnect => CommandOutcome {
                to_slot0: self.disconnect_command(0, true),
                to_slot1: self.disconnect_command(1, true),
                event: None,
                run_scan: false,
            },
        }
    }

    /// Takes over how a scan ended: its result is kept for the next
    /// `Connect` command; after a failed scan there is none.
    pub fn on_scan_finished(&mut self, outcome: Result<ScanResult, BleErrorTag>)
        ensures
            final(self)@.slots == old(self)@.slots,
            final(self)@.scan == match outcome {
                Ok(result) => Some(result.records()),
                Err(_) => None,
            },
    {
        match outcome {
            Ok(result) => {
                self.last_scan = Some(result);
            },
            Err(_) => {
                self.last_scan = None;
            },
        }
    }

    /// Takes in an event from a slot worker.
    ///
    /// A device that connected is marked in its slot and added to the
    /// store, which is then to be saved. A slot that disconnected or failed
    /// is marked as vacant.
    pub fn on_slot_event(&mut self, event: SlotEvent, store: &mut DeviceStore) -> (outcome:
        EventOutcome)
        ensures
            final(self)@.scan == old(self)@.scan,
            final(self)@.slots == slots_after_event(old(self)@.slots, event@),
            final(store).records() == store_after_event(old(store).records(), event@),
            outcome.persist == (event is Connected),
            outcome.error == match event {
                SlotEvent::Error { slot, tag } => Some(tag),
                _ => None,
            },
            outcome.status@ == status_after_event(old(self)@.slots, event@),
            event is Connected ==> final(store).is_dirty(),
            !(event is Connected) ==> final(store).is_dirty() == old(store).is_dirty(),
    {
        match event {
            SlotEvent::Connected { slot, device } => {
                self.manager.connect_slot(slot, &device);
                let text = name_as_str(&device.name);
                proof {
                    lemma_fitting_text_is_packed_whole(text@);
                }
                store.add(PairedDevice::new(device.address, text, device.rssi));
                let summary = connection_summary(&self.manager);
                EventOutcome { persist: true, error: None, status: BleEvent::Connected(summary) }
            },
            SlotEvent::Disconnected { slot } => {
                self.manager.disconnect_slot(slot);
                EventOutcome { persist: false, error: None, status: self.presence_event() }
            },
            SlotEvent::Error { slot, tag } => {
                self.manager.disconnect_slot(slot);
                EventOutcome { persist: false, error: Some(tag), status: self.presence_event() }
            },
        }
    }

    /// The status that the UI is told when a connection is gone.
    fn presence_event(&self) -> (event: BleEvent)
        ensures
            event@ == presence(self@.slots),
    {
        if self.manager.active_count() == 0 {
            BleEvent::Disconnected
        } else {
            BleEvent::Connected(connection_summary(&self.manager))
        }
    }

    /// The command that disconnects a slot if it is connected and `wanted`.
    fn disconnect_command(&self, slot: usize, wanted: bool) -> (command: Option<SlotCommand>)
        requires
            slot < 2,
        ensures
            match command {
                Some(c) => Some(c@),
                None => None,
            } == disconnect_if(self@.slots[slot as int], wanted),
    {
        if wanted && self.manager.is_slot_connected(slot) {
            Some(SlotCommand::Disconnect)
        } else {
            None
        }
    }

    /// The outcome that tells the UI `ConnectFailed` and does nothing else.
    fn connect_failed() -> (outcome: CommandOutcome)
        ensures
            outcome@ == CommandOutcomeView::connect_failed(),
    {
        CommandOutcome {
            to_slot0: None,
            to_slot1: None,
            event: Some(BleEvent::Error(BleErrorTag::ConnectFailed)),
            run_scan: false,
        }
    }
}

/// Number of connection slots.
const MAX_SLOTS: usize = 2;

/// One input of the coordinator.
pub enum CoordinatorInput {
    /// Power-up with this store of paired devices.
    Start(Seq<DeviceRecord>),
    /// A command from the UI.
    Command(BleCommand),
    /// The end of a scan, with its result if it has one.
    ScanFinished(Option<Seq<DeviceRecord>>),
    /// An event from a slot worker.
    Slot(SlotEventView),
}

/// The coordinator after power-up: with a paired device in the store,
/// slot 0 is marked as connected to the most recent one.
pub open spec fn after_start(state: CoordinatorView, records: Seq<DeviceRecord>)
    -> CoordinatorView {
    if records.len() > 0 {
        CoordinatorView { slots: state.slots.update(0, SlotView::holding(records.last())), ..state }
    } else {
        state
    }
}

/// The coordinator after one input.
pub open spec fn after_input(state: CoordinatorView, input: CoordinatorInput) -> CoordinatorView {
    match input {
        CoordinatorInput::Start(records) => after_start(state, records),
        CoordinatorInput::Command(command) => after_command(state, command),
        CoordinatorInput::ScanFinished(found) => CoordinatorView { scan: found, ..state },
        CoordinatorInput::Slot(event) => CoordinatorView {
            slots: slots_after_event(state.slots, event),
            ..state
        },
    }
}

/// Whether an input is one that the system can give the coordinator in
/// this state: power-up does not come while slot 1 holds the device to
/// reconnect, and a worker reports a connection only to a device that no
/// other slot holds.
pub open spec fn input_fits(state: CoordinatorView, input: CoordinatorInput) -> bool {
    match input {
        CoordinatorInput::Start(records) => records.len() > 0 ==> !state.slots[1].holds(
            records.last().address,
        ),
        CoordinatorInput::Slot(SlotEventView::Connected { slot, device }) => forall|i: int|
            0 <= i < state.slots.len() && i != slot ==> !(#[trigger] state.slots[i]).holds(
                device.address,
            ),
        _ => true,
    }
}

/// The coordinator after a run of inputs, starting with two vacant slots.
pub open spec fn after_run(inputs: Seq<CoordinatorInput>) -> CoordinatorView
    decreases inputs.len(),
{
    if inputs.len() == 0 {
        CoordinatorView { slots: seq![SlotView::vacant(), SlotView::vacant()], scan: None }
    } else {
        after_input(after_run(inputs.drop_last()), inputs.last())
    }
}

/// Whether every input of a run fits the state it meets.
pub open spec fn run_fits(inputs: Seq<CoordinatorInput>) -> bool
    decreases inputs.len(),
{
    inputs.len() == 0 || (run_fits(inputs.drop_last()) && input_fits(
        after_run(inputs.drop_last()),
        inputs.last(),
    ))
}

/// One input keeps the slots sound: at most two are connected, and no two
/// hold the same address.
pub proof fn lemma_input_keeps_slots_sound(state: CoordinatorView, input: CoordinatorInput)
    requires
        slots_sound(state.slots),
        input_fits(state, input),
    ensures
        slots_sound(after_input(state, input).slots),
        count_connected(after_input(state, input).slots) <= 2,
{
    let next = after_input(state, input).slots;
    lemma_count_two(state.slots);
    match input {
        CoordinatorInput::Start(records) => {},
        CoordinatorInput::Command(command) => {
            match command {
                BleCommand::Connect(index) => {
                    match state.scan {
                        Some(found) => {
                            match connect_target(state.slots, found, index) {
                                Some((slot, device)) => {
                                    assert(!address_connected(state.slots, device.address));
                                    assert(!state.slots[0].holds(device.address));
                                    assert(!state.slots[1].holds(device.address));
                                },
                                None => {},
                            }
                        },
                        None => {},
                    }
                },
                _ => {},
            }
        },
        CoordinatorInput::ScanFinished(found) => {},
        CoordinatorInput::Slot(event) => {
            match event {
                SlotEventView::Connected { slot, device } => {
                    if slot < 2 {
                        assert(!state.slots[1 - slot].holds(device.address));
                    }
                },
                _ => {},
            }
        },
    }
    assert(next.len() == 2);
    lemma_count_two(next);
}

/// At every point of a run in which every input fits, at most two slots
/// are connected and no two slots hold the same address.
pub proof fn lemma_slots_stay_sound(inputs: Seq<CoordinatorInput>)
    requires
        run_fits(inputs),
    ensures
        slots_sound(after_run(inputs).slots),
        count_connected(after_run(inputs).slots) <= 2,
    decreases inputs.len(),
{
    if inputs.len() == 0 {
        lemma_count_two(after_run(inputs).slots);
    } else {
        lemma_slots_stay_sound(inputs.drop_last());
        lemma_input_keeps_slots_sound(after_run(inputs.drop_last()), inputs.last());
    }
}

/// Before a scan the coordinator frees the slots if both are connected:
/// `StartScan` then tells both workers to disconnect, and runs the scan.
pub proof fn lemma_scan_frees_busy_slots(state: CoordinatorView)
    requires
        state.slots.len() == 2,
    ensures
        command_outcome(state, BleCommand::StartScan).run_scan,
        state.slots[0].connected && state.slots[1].connected ==> command_outcome(
            state,
            BleCommand::StartScan,
        ).to_slot0 == Some(SlotCommandView::Disconnect) && command_outcome(
            state,
            BleCommand::StartScan,
        ).to_slot1 == Some(SlotCommandView::Disconnect),
        !(state.slots[0].connected && state.slots[1].connected) ==> command_outcome(
            state,
            BleCommand::StartScan,
        ).to_slot0 is None && command_outcome(state, BleCommand::StartScan).to_slot1 is None,
{
    lemma_count_two(state.slots);
}

/// A device that connected has its bond in the store afterwards, and the
/// store holds no more than four devices.
pub proof fn lemma_connected_device_is_stored(
    records: Seq<DeviceRecord>,
    slot: usize,
    device: DeviceRecord,
)
    requires
        records.len() <= 4,
    ensures
        store_after_event(records, SlotEventView::Connected { slot, device }).contains(device),
        store_after_event(records, SlotEventView::Connected { slot, device }).len() <= 4,
{
    crate::storage::lemma_added_is_kept(records, device);
}

/// A command never puts one address into two slots: whatever the scan
/// result holds, `Connect` passes over a device that is connected already.
pub proof fn lemma_command_keeps_slots_sound(state: CoordinatorView, command: BleCommand)
    requires
        slots_sound(state.slots),
    ensures
        slots_sound(after_command(state, command).slots),
{
    lemma_input_keeps_slots_sound(state, CoordinatorInput::Command(command));
}

} // verus!
