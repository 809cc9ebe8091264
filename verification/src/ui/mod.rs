//! User interface subsystem - the five-screen view controller.
//!
//! The UI reacts to the three buttons and to the events of the BLE
//! coordinator:
//!
//! | Screen     | Input             | Effect                                        |
//! |------------|-------------------|-----------------------------------------------|
//! | Home       | Select            | sends `StartScan`                             |
//! | Error      | Select            | sends `StartScan`                             |
//! | DeviceList | Up                | moves the selection up                        |
//! | DeviceList | Down              | moves the selection down                      |
//! | DeviceList | Select            | sends `Connect` for the selected device       |
//! | Connected  | Select            | sends `StartScan` (to add a device)           |
//! | Connected  | Down              | sends `Disconnect`                            |
//! | any        | `ScanStarted`     | shows Scanning, forgets the devices           |
//! | any        | `DeviceFound`     | remembers the device, up to eight             |
//! | any        | `ScanComplete`    | shows DeviceList, or Error if none was found  |
//! | any        | `Connected(name)` | shows Connected with the name                 |
//! | any        | `Disconnected`    | shows Home                                    |
//! | any        | `Error(tag)`      | shows Error with the tag                      |
//!
//! Every pair that is not in the table changes nothing.

pub mod display;
pub mod input_logic;

use vstd::prelude::*;

use crate::ble::{BleCommand, BleErrorTag, BleEvent, BleEventView, DeviceRecord, DiscoveredDevice};
use crate::bounded::{found_as_slice, found_items, found_new, found_push, name_bytes, name_new};
use input_logic::{select_next, select_prev};

verus! {

/// Screens (views) the UI can be in.
#[derive(Clone, Copy, Debug, PartialEq, Eq)]
pub enum Screen {
    /// Idle / home - shows connection status.
    Home,
    /// Scanning for BLE devices - shows spinner/progress.
    Scanning,
    /// Device list - user picks one to connect.
    DeviceList,
    /// Connected - shows active device info.
    Connected,
    /// Error - shows a transient message.
    Error,
}

/// Physical button events (after debouncing).
///
/// Simplified to 3 buttons for a dongle use case:
///   - UP/DOWN: Navigate device list
///   - SELECT: Context-dependent action (scan, connect, disconnect)
#[derive(Clone, Copy, Debug, PartialEq, Eq)]
pub enum ButtonEvent {
    Up,
    Down,
    Select,
}

/// What the Error screen tells.
#[derive(Clone, Copy, Debug, PartialEq, Eq)]
pub enum UiMessage {
    /// A scan ended without a device.
    NoDevicesFound,
    /// The BLE side reported an error.
    Ble(BleErrorTag),
}

impl UiMessage {
    /// The short label of the message.
    pub fn label(&self) -> (label: &'static str)
        ensures
            label@ == match *self {
                UiMessage::NoDevicesFound => "No devices found"@,
                UiMessage::Ble(BleErrorTag::ScanFailed) => "ScanFailed"@,
                UiMessage::Ble(BleErrorTag::ConnectFailed) => "ConnectFailed"@,
                UiMessage::Ble(BleErrorTag::HidNotFound) => "HidNotFound"@,
                UiMessage::Ble(BleErrorTag::NotifyFailed) => "NotifyFailed"@,
            },
    {
        match self {
            UiMessage::NoDevicesFound => "No devices found",
            UiMessage::Ble(BleErrorTag::ScanFailed) => "ScanFailed",
            UiMessage::Ble(BleErrorTag::ConnectFailed) => "ConnectFailed",
            UiMessage::Ble(BleErrorTag::HidNotFound) => "HidNotFound",
            UiMessage::Ble(BleErrorTag::NotifyFailed) => "NotifyFailed",
        }
    }
}

/// The mathematical value of a [`Ui`].
pub struct UiView {
    /// The screen that is shown.
    pub screen: Screen,
    /// The devices found by the scan, in the order found.
    pub devices: Seq<DeviceRecord>,
    /// The place of the selected device in the list.
    pub selected: usize,
    /// The summary of the connections, as last reported.
    pub connected: Seq<u8>,
    /// What the Error screen tells.
    pub message: UiMessage,
}

impl UiView {
    /// The UI after a button was pressed.
    pub open spec fn after_button(self, button: ButtonEvent) -> UiView {
        match (self.screen, button) {
            (Screen::DeviceList, ButtonEvent::Up) => UiView {
                selected: if self.selected == 0 {
                    0usize
                } else {
                    (self.selected - 1) as usize
                },
                ..self
            },
            (Screen::DeviceList, ButtonEvent::Down) => UiView {
                selected: if self.selected + 1 < self.devices.len() {
                    (self.selected + 1) as usize
                } else {
                    self.selected
                },
                ..self
            },
            _ => self,
        }
    }

    /// The command that a button sends to the BLE coordinator.
    pub open spec fn command_of(self, button: ButtonEvent) -> Option<BleCommand> {
        match (self.screen, button) {
            (Screen::Home, ButtonEvent::Select) => Some(BleCommand::StartScan),
            (Screen::Error, ButtonEvent::Select) => Some(BleCommand::StartScan),
            (Screen::DeviceList, ButtonEvent::Select) => Some(BleCommand::Connect(self.selected)),
            (Screen::Connected, ButtonEvent::Select) => Some(BleCommand::StartScan),
            (Screen::Connected, ButtonEvent::Down) => Some(BleCommand::Disconnect),
            _ => None,
        }
    }

    /// The UI after an event of the BLE coordinator.
    pub open spec fn after_event(self, event: BleEventView) -> UiView {
        match event {
            BleEventView::ScanStarted => UiView {
                screen: Screen::Scanning,
                devices: Seq::empty(),
                selected: 0,
                ..self
            },
            BleEventView::DeviceFound(device) => UiView {
                devices: if self.devices.len() < 8 {
                    self.devices.push(device)
                } else {
                    self.devices
                },
                ..self
            },
            BleEventView::ScanComplete => if self.devices.len() > 0 {
                UiView { screen: Screen::DeviceList, ..self }
            } else {
                UiView { screen: Screen::Error, message: UiMessage::NoDevicesFound, ..self }
            },
            BleEventView::Connected(name) => UiView {
                screen: Screen::Connected,
                connected: name,
                ..self
            },
            BleEventView::Disconnected => UiView { screen: Screen::Home, ..self },
            BleEventView::Error(tag) => UiView {
                screen: Screen::Error,
                message: UiMessage::Ble(tag),
                ..self
            },
        }
    }
}

/// The view controller.
pub struct Ui {
    screen: Screen,
    found: heapless::Vec<DiscoveredDevice, 8>,
    selected: usize,
    connected: heapless::String<32>,
    message: UiMessage,
}

impl View for Ui {
    type V = UiView;

    closed spec fn view(&self) -> UiView {
        UiView {
            screen: self.screen,
            devices: found_items(self.found).map_values(|d: DiscoveredDevice| d@),
            selected: self.selected,
            connected: name_bytes(self.connected),
            message: self.message,
        }
    }
}

impl Ui {
    /// The UI at power-up: the Home screen, no devices.
    pub fn new() -> (ui: Self)
        ensures
            ui@ == (UiView {
                screen: Screen::Home,
                devices: Seq::empty(),
                selected: 0,
                connected: Seq::empty(),
                message: UiMessage::NoDevicesFound,
            }),
    {
        let ui = Self {
            screen: Screen::Home,
            found: found_new(),
            selected: 0,
            connected: name_new(),
            message: UiMessage::NoDevicesFound,
        };
        assert(ui@.devices =~= Seq::<DeviceRecord>::empty());
        ui
    }

    /// The screen that is shown.
    pub fn screen(&self) -> (screen: Screen)
        ensures
            screen == self@.screen,
    {
        self.screen
    }

    /// The place of the selected device in the list.
    pub fn selected(&self) -> (selected: usize)
        ensures
            selected == self@.selected,
    {
        self.selected
    }

    /// What the Error screen tells.
    pub fn message(&self) -> (message: UiMessage)
        ensures
            message == self@.message,
    {
        self.message
    }

    /// The summary of the connections, as last reported.
    pub fn connected_name(&self) -> (name: &heapless::String<32>)
        ensures
            name_bytes(*name) == self@.connected,
    {
        &self.connected
    }

    /// The devices found by the scan, in the order found.
    pub fn devices(&self) -> (devices: &[DiscoveredDevice])
        ensures
            devices@.map_values(|d: DiscoveredDevice| d@) == self@.devices,
            devices@.len() <= 8,
    {
        found_as_slice(&self.found)
    }

    /// Takes in a button press. The result is the command to send to the
    /// BLE coordinator, if the button asks for one.
    pub fn on_button(&mut self, button: ButtonEvent) -> (command: Option<BleCommand>)
        ensures
            final(self)@ == old(self)@.after_button(button),
            command == old(self)@.command_of(button),
    {
        match (self.screen, button) {
            (Screen::Home, ButtonEvent::Select) => Some(BleCommand::StartScan),
            (Screen::Error, ButtonEvent::Select) => Some(BleCommand::StartScan),
            (Screen::DeviceList, ButtonEvent::Up) => {
                self.selected = select_prev(self.selected);
                None
            },
            (Screen::DeviceList, ButtonEvent::Down) => {
                let count = found_as_slice(&self.found).len();
                self.selected = select_next(self.selected, count);
                None
            },
            (Screen::DeviceList, ButtonEvent::Select) => Some(BleCommand::Connect(self.selected)),
            (Screen::Connected, ButtonEvent::Select) => Some(BleCommand::StartScan),
            (Screen::Connected, ButtonEvent::Down) => Some(BleCommand::Disconnect),
            _ => None,
        }
    }

    /// Takes in an event of the BLE coordinator.
    pub fn on_ble_event(&mut self, event: BleEvent)
        ensures
            final(self)@ == old(self)@.after_event(event@),
    {
        match event {
            BleEvent::ScanStarted => {
                self.screen = Screen::Scanning;
                self.found = found_new();
                self.selected = 0;
                assert(self@.devices =~= Seq::<DeviceRecord>::empty());
            },
            BleEvent::DeviceFound(device) => {
                let ghost before = self@.devices;
                let ghost record = device@;
                let pushed = found_push(&mut self.found, device);
                proof {
                    if pushed {
                        assert(self@.devices =~= before.push(record));
                    }
                }
            },
            BleEvent::ScanComplete => {
                if found_as_slice(&self.found).len() > 0 {
                    self.screen = Screen::DeviceList;
                } else {
                    self.screen = Screen::Error;
                    self.message = UiMessage::NoDevicesFound;
                }
            },
            BleEvent::Connected(name) => {
                self.screen = Screen::Connected;
                self.connected = name;
            },
            BleEvent::Disconnected => {
                self.screen = Screen::Home;
            },
            BleEvent::Error(tag) => {
                self.screen = Screen::Error;
                self.message = UiMessage::Ble(tag);
            },
        }
    }
}

} // verus!
