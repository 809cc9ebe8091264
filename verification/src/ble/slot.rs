//! Slot worker.
//!
//! One worker owns one BLE connection from end to end:
//!
//! ```text
//! Idle -Connect(d)-> Connecting -ok-> Securing -ok-> Discovering -ok-> Streaming -lost-> Idle
//!                        |               |               |                |
//!                        +-fail-> Error -+---------------+----------------+
//! ```
//!
//! The worker decides; the caller acts. Each step hands the worker the
//! result of the last action (or a command that arrived while the action
//! was under way) and gets the next action to carry out.
//!
//! A command that arrives while the worker is busy cancels what it is
//! doing: an open link is closed first, then `Disconnected` is reported,
//! and a `Connect` that caused it is taken up afterwards.

use vstd::prelude::*;

use crate::ble::multi_conn::{SlotCommand, SlotCommandView, SlotEvent, SlotEventView};
use crate::ble::{BleErrorTag, DeviceRecord, DiscoveredDevice};
use crate::config::{
    BLE_CONN_INTERVAL_MAX, BLE_CONN_INTERVAL_MIN, BLE_SLAVE_LATENCY, BLE_SUP_TIMEOUT,
};
use crate::hid::report_protocol::HidDescriptor;
use crate::hid::{classified, classify_notification_with_hint, HidReport};

verus! {

/// How often the security mode of a new link is checked before the worker
/// gives up on it.
pub const SECURITY_CHECKS: u8 = 25;

/// The time between two checks of the security mode, in milliseconds.
pub const SECURITY_CHECK_INTERVAL_MS: u64 = 200;

/// The value of the Protocol Mode characteristic that selects Boot Protocol.
pub const BOOT_PROTOCOL_MODE: u8 = 0;

/// The parameters a link is opened with, tuned for HID latency.
#[derive(Clone, Copy, Debug, PartialEq, Eq)]
pub struct ConnectionParams {
    /// Shortest connection interval, in units of 1.25 ms.
    pub min_conn_interval: u16,
    /// Longest connection interval, in units of 1.25 ms.
    pub max_conn_interval: u16,
    /// Connection events the peripheral may skip.
    pub slave_latency: u16,
    /// Supervision timeout, in units of 10 ms.
    pub conn_sup_timeout: u16,
}

/// The parameters every link is opened with: an interval of 7.5 to 15 ms,
/// no slave latency, and a supervision timeout of 4 s.
pub fn connection_params() -> (params: ConnectionParams)
    ensures
        params == (ConnectionParams {
            min_conn_interval: 6,
            max_conn_interval: 12,
            slave_latency: 0,
            conn_sup_timeout: 400,
        }),
{
    ConnectionParams {
        min_conn_interval: BLE_CONN_INTERVAL_MIN,
        max_conn_interval: BLE_CONN_INTERVAL_MAX,
        slave_latency: BLE_SLAVE_LATENCY,
        conn_sup_timeout: BLE_SUP_TIMEOUT,
    }
}

/// The security mode of a link, as the radio stack reports it.
#[derive(Clone, Copy, Debug, PartialEq, Eq)]
pub enum SecurityMode {
    NoAccess,
    Open,
    JustWorks,
    Mitm,
    LescMitm,
    Signed,
    SignedMitm,
}

impl SecurityMode {
    /// Whether a link in this mode is secured: every mode but `NoAccess`
    /// and `Open`.
    pub open spec fn secured(self) -> bool {
        !(self is NoAccess || self is Open)
    }

    /// Whether a link in this mode is secured.
    pub fn is_secured(self) -> (secured: bool)
        ensures
            secured == self.secured(),
    {
        match self {
            SecurityMode::NoAccess | SecurityMode::Open => false,
            _ => true,
        }
    }
}

/// How the request to encrypt a link ended.
#[derive(Clone, Copy, Debug, PartialEq, Eq)]
pub enum EncryptOutcome {
    /// Encryption with stored keys is under way.
    Started,
    /// No keys are stored for the peer: it has to be paired first.
    PeerKeysNotFound,
    /// The request failed for another reason.
    Failed,
}

/// How a worker takes leave of a connection.
#[derive(Clone, Copy, Debug, PartialEq, Eq)]
pub enum Farewell {
    /// The connection ended or was cancelled.
    Disconnected,
    /// The connection failed.
    Failed(BleErrorTag),
}

/// Where a worker stands. Each phase but `Idle` waits for the result of
/// one action.
#[derive(Clone, Copy, Debug, PartialEq, Eq)]
pub enum SlotPhase {
    /// No connection; waits for a command.
    Idle,
    /// Waits for the link to open.
    Connecting,
    /// Waits for the request to encrypt the link.
    Encrypting,
    /// Waits for the request to pair with the peer.
    RequestingPairing,
    /// Waits for the security mode, after `checks` checks that found the
    /// link unsecured.
    CheckingSecurity { checks: u8 },
    /// Waits for the pause before the next check to pass.
    Pausing { checks: u8 },
    /// Waits for the discovery of the HID service.
    Discovering,
    /// Waits for the read of the Report Map.
    ReadingReportMap,
    /// Waits for the write of the Protocol Mode.
    SettingProtocol,
    /// Waits for notifications to be enabled.
    Subscribing,
    /// Waits for `Connected` to be reported.
    Announcing,
    /// Waits for the next notification.
    Listening,
    /// Waits for the link to be closed.
    Closing,
    /// Waits for `Disconnected` or `Error` to be reported.
    Reporting,
}

/// The five states of a connection, and the way out of one that failed.
#[derive(Clone, Copy, Debug, PartialEq, Eq)]
pub enum SlotStage {
    Idle,
    Connecting,
    Securing,
    Discovering,
    Streaming,
    Leaving,
}

impl SlotPhase {
    /// The state of the connection in this phase.
    pub open spec fn stage(self) -> SlotStage {
        match self {
            SlotPhase::Idle => SlotStage::Idle,
            SlotPhase::Connecting => SlotStage::Connecting,
            SlotPhase::Encrypting => SlotStage::Securing,
            SlotPhase::RequestingPairing => SlotStage::Securing,
            SlotPhase::CheckingSecurity { checks } => SlotStage::Securing,
            SlotPhase::Pausing { checks } => SlotStage::Securing,
            SlotPhase::Discovering => SlotStage::Discovering,
            SlotPhase::ReadingReportMap => SlotStage::Discovering,
            SlotPhase::SettingProtocol => SlotStage::Discovering,
            SlotPhase::Subscribing => SlotStage::Discovering,
            SlotPhase::Announcing => SlotStage::Discovering,
            SlotPhase::Listening => SlotStage::Streaming,
            SlotPhase::Closing => SlotStage::Leaving,
            SlotPhase::Reporting => SlotStage::Leaving,
        }
    }

    /// Whether the worker holds an open link in this phase.
    pub open spec fn has_link(self) -> bool {
        self.stage() is Securing || self.stage() is Discovering || self.stage() is Streaming
            || self is Closing
    }

    /// Whether a command cancels what the worker does in this phase.
    pub open spec fn can_be_cancelled(self) -> bool {
        self.stage() is Connecting || self.stage() is Securing || self.stage() is Discovering
            || self.stage() is Streaming
    }
}

/// What the caller hands the worker: a command, or the result of the
/// action that the worker asked for last.
#[derive(Debug)]
pub enum SlotInput<'a> {
    /// A command from the coordinator arrived.
    Command(SlotCommand),
    /// `OpenLink` ended; the link is open or the attempt failed.
    LinkOpened(bool),
    /// `Encrypt` ended.
    EncryptionRequested(EncryptOutcome),
    /// `RequestPairing` ended; the request was accepted or not.
    PairingRequested(bool),
    /// `CheckSecurity` ended with this mode.
    Security(SecurityMode),
    /// `Pause` ended.
    Paused,
    /// `DiscoverService` ended; the HID service was found or not.
    ServiceDiscovered(bool),
    /// `ReadReportMap` ended with these bytes, or failed.
    ReportMapRead(Option<&'a [u8]>),
    /// `WriteProtocolMode` ended, well or not.
    ProtocolModeWritten(bool),
    /// `EnableNotifications` ended, well or not.
    NotificationsEnabled(bool),
    /// `Listen` ended with a notification.
    Notification(&'a [u8]),
    /// `Listen` ended because the link is gone.
    LinkLost,
    /// `CloseLink` or `Report` was carried out.
    Done,
}

/// The mathematical value of a [`SlotInput`].
pub enum SlotInputView {
    Command(SlotCommandView),
    LinkOpened(bool),
    EncryptionRequested(EncryptOutcome),
    PairingRequested(bool),
    Security(SecurityMode),
    Paused,
    ServiceDiscovered(bool),
    ReportMapRead(Option<Seq<u8>>),
    ProtocolModeWritten(bool),
    NotificationsEnabled(bool),
    Notification(Seq<u8>),
    LinkLost,
    Done,
}

impl<'a> View for SlotInput<'a> {
    type V = SlotInputView;

    open spec fn view(&self) -> SlotInputView {
        match self {
            SlotInput::Command(c) => SlotInputView::Command(c@),
            SlotInput::LinkOpened(ok) => SlotInputView::LinkOpened(*ok),
            SlotInput::EncryptionRequested(o) => SlotInputView::EncryptionRequested(*o),
            SlotInput::PairingRequested(ok) => SlotInputView::PairingRequested(*ok),
            SlotInput::Security(m) => SlotInputView::Security(*m),
            SlotInput::Paused => SlotInputView::Paused,
            SlotInput::ServiceDiscovered(ok) => SlotInputView::ServiceDiscovered(*ok),
            SlotInput::ProtocolModeWritten(ok) => SlotInputView::ProtocolModeWritten(*ok),
            SlotInput::ReportMapRead(map) => SlotInputView::ReportMapRead(
                match map {
                    Some(bytes) => Some(bytes@),
                    None => None,
                },
            ),
            SlotInput::NotificationsEnabled(ok) => SlotInputView::NotificationsEnabled(*ok),
            SlotInput::Notification(data) => SlotInputView::Notification(data@),
            SlotInput::LinkLost => SlotInputView::LinkLost,
            SlotInput::Done => SlotInputView::Done,
        }
    }
}

/// What the worker asks the caller to do next.
#[derive(Debug)]
pub enum SlotAction {
    /// Wait for the next command.
    AwaitCommand,
    /// Open a link to the device, with a whitelist of this one address and
    /// the parameters of [`connection_params`].
    OpenLink(DiscoveredDevice),
    /// Ask for the link to be encrypted with stored keys.
    Encrypt,
    /// Ask the peer to pair.
    RequestPairing,
    /// Read the security mode of the link.
    CheckSecurity,
    /// Let this many milliseconds pass.
    Pause(u64),
    /// Discover the HID service.
    DiscoverService,
    /// Read the Report Map characteristic.
    ReadReportMap,
    /// Write this value to the Protocol Mode characteristic; the connection
    /// goes on whether the write succeeds or not.
    WriteProtocolMode(u8),
    /// Enable notifications on the Report characteristic.
    EnableNotifications,
    /// Wait for the next notification, or for the link to go.
    Listen,
    /// Hand the report on to the USB side without waiting, and drop it if
    /// there is no room for it; then wait as for `Listen`.
    Forward(HidReport),
    /// Close the link.
    CloseLink,
    /// Send the event to the coordinator.
    Report(SlotEvent),
}

/// The mathematical value of a [`SlotAction`].
pub enum SlotActionView {
    AwaitCommand,
    OpenLink(DeviceRecord),
    Encrypt,
    RequestPairing,
    CheckSecurity,
    Pause(u64),
    DiscoverService,
    ReadReportMap,
    WriteProtocolMode(u8),
    EnableNotifications,
    Listen,
    Forward(HidReport),
    CloseLink,
    Report(SlotEventView),
}

impl View for SlotAction {
    type V = SlotActionView;

    open spec fn view(&self) -> SlotActionView {
        match self {
            SlotAction::AwaitCommand => SlotActionView::AwaitCommand,
            SlotAction::OpenLink(d) => SlotActionView::OpenLink(d@),
            SlotAction::Encrypt => SlotActionView::Encrypt,
            SlotAction::RequestPairing => SlotActionView::RequestPairing,
            SlotAction::CheckSecurity => SlotActionView::CheckSecurity,
            SlotAction::Pause(ms) => SlotActionView::Pause(*ms),
            SlotAction::DiscoverService => SlotActionView::DiscoverService,
            SlotAction::WriteProtocolMode(mode) => SlotActionView::WriteProtocolMode(*mode),
            SlotAction::ReadReportMap => SlotActionView::ReadReportMap,
            SlotAction::EnableNotifications => SlotActionView::EnableNotifications,
            SlotAction::Listen => SlotActionView::Listen,
            SlotAction::Forward(report) => SlotActionView::Forward(*report),
            SlotAction::CloseLink => SlotActionView::CloseLink,
            SlotAction::Report(event) => SlotActionView::Report(event@),
        }
    }
}

/// The mathematical value of a [`SlotWorker`].
pub struct WorkerView {
    /// The number of the slot that the worker serves.
    pub slot: usize,
    /// Where the worker stands.
    pub phase: SlotPhase,
    /// The device of the connection, while there is one.
    pub device: Option<DeviceRecord>,
    /// The parsed report descriptor of the device, if it could be read.
    pub descriptor: Option<HidDescriptor>,
    /// How the worker takes leave of the connection, while it is leaving.
    pub farewell: Farewell,
    /// The device of a `Connect` command that cancelled the connection.
    pub pending: Option<DeviceRecord>,
}

impl WorkerView {
    /// The event that takes leave of the connection.
    pub open spec fn farewell_event(self) -> SlotEventView {
        match self.farewell {
            Farewell::Disconnected => SlotEventView::Disconnected { slot: self.slot },
            Farewell::Failed(tag) => SlotEventView::Error { slot: self.slot, tag },
        }
    }

    /// The action whose result the worker waits for.
    pub open spec fn awaited(self) -> SlotActionView {
        match self.phase {
            SlotPhase::Idle => SlotActionView::AwaitCommand,
            SlotPhase::Connecting => SlotActionView::OpenLink(self.device.unwrap()),
            SlotPhase::Encrypting => SlotActionView::Encrypt,
            SlotPhase::RequestingPairing => SlotActionView::RequestPairing,
            SlotPhase::CheckingSecurity { checks } => SlotActionView::CheckSecurity,
            SlotPhase::Pausing { checks } => SlotActionView::Pause(200),
            SlotPhase::Discovering => SlotActionView::DiscoverService,
            SlotPhase::SettingProtocol => SlotActionView::WriteProtocolMode(0),
            SlotPhase::ReadingReportMap => SlotActionView::ReadReportMap,
            SlotPhase::Subscribing => SlotActionView::EnableNotifications,
            SlotPhase::Announcing => SlotActionView::Report(
                SlotEventView::Connected { slot: self.slot, device: self.device.unwrap() },
            ),
            SlotPhase::Listening => SlotActionView::Listen,
            SlotPhase::Closing => SlotActionView::CloseLink,
            SlotPhase::Reporting => SlotActionView::Report(self.farewell_event()),
        }
    }

    /// The worker in another phase.
    pub open spec fn at(self, phase: SlotPhase) -> WorkerView {
        WorkerView { phase, ..self }
    }

    /// The worker as it sets out to connect to `device`.
    pub open spec fn connecting_to(self, device: DeviceRecord) -> WorkerView {
        WorkerView {
            phase: SlotPhase::Connecting,
            device: Some(device),
            descriptor: None,
            pending: None,
            ..self
        }
    }

    /// The worker as it takes leave of its connection: with an open link
    /// it closes the link first, without one it reports at once.
    pub open spec fn leaving(self, farewell: Farewell) -> WorkerView {
        WorkerView {
            phase: if self.phase.has_link() {
                SlotPhase::Closing
            } else {
                SlotPhase::Reporting
            },
            farewell,
            ..self
        }
    }

    /// The worker after it has taken leave: it takes up the `Connect`
    /// command that is pending, or else goes idle.
    pub open spec fn settled(self) -> WorkerView {
        match self.pending {
            Some(device) => self.connecting_to(device),
            None => WorkerView {
                phase: SlotPhase::Idle,
                device: None,
                descriptor: None,
                pending: None,
                ..self
            },
        }
    }

    /// The worker after an input.
    ///
    /// An input that neither is a command nor answers the action that the
    /// worker waits for changes nothing.
    pub open spec fn after(self, input: SlotInputView) -> WorkerView {
        match (self.phase, input) {
            (SlotPhase::Idle, SlotInputView::Command(SlotCommandView::Connect(device))) => {
                self.connecting_to(device)
            },
            (_, SlotInputView::Command(command)) => if self.phase.can_be_cancelled() {
                WorkerView {
                    pending: match command {
                        SlotCommandView::Connect(device) => Some(device),
                        SlotCommandView::Disconnect => None,
                    },
                    ..self.leaving(Farewell::Disconnected)
                }
            } else {
                self
            },
            (SlotPhase::Connecting, SlotInputView::LinkOpened(ok)) => if ok {
                self.at(SlotPhase::Encrypting)
            } else {
                self.leaving(Farewell::Failed(BleErrorTag::ConnectFailed))
            },
            (SlotPhase::Encrypting, SlotInputView::EncryptionRequested(outcome)) => match outcome {
                EncryptOutcome::Started => self.at(SlotPhase::CheckingSecurity { checks: 0 }),
                EncryptOutcome::PeerKeysNotFound => self.at(SlotPhase::RequestingPairing),
                EncryptOutcome::Failed => self.leaving(
                    Farewell::Failed(BleErrorTag::ConnectFailed),
                ),
            },
            (SlotPhase::RequestingPairing, SlotInputView::PairingRequested(ok)) => if ok {
                self.at(SlotPhase::CheckingSecurity { checks: 0 })
            } else {
                self.leaving(Farewell::Failed(BleErrorTag::ConnectFailed))
            },
            (SlotPhase::CheckingSecurity { checks }, SlotInputView::Security(mode)) => if mode.secured() {
                self.at(SlotPhase::Discovering)
            } else {
                self.at(SlotPhase::Pausing { checks })
            },
            (SlotPhase::Pausing { checks }, SlotInputView::Paused) => if checks + 1 < 25 {
                self.at(SlotPhase::CheckingSecurity { checks: (checks + 1) as u8 })
            } else {
                self.leaving(Farewell::Failed(BleErrorTag::ConnectFailed))
            },
            (SlotPhase::Discovering, SlotInputView::ServiceDiscovered(ok)) => if ok {
                self.at(SlotPhase::ReadingReportMap)
            } else {
                self.leaving(Farewell::Failed(BleErrorTag::HidNotFound))
            },
            (SlotPhase::ReadingReportMap, SlotInputView::ReportMapRead(map)) => WorkerView {
                phase: SlotPhase::SettingProtocol,
                descriptor: match map {
                    Some(bytes) => HidDescriptor::parsed(bytes),
                    None => None,
                },
                ..self
            },
            (SlotPhase::SettingProtocol, SlotInputView::ProtocolModeWritten(ok)) => self.at(
                SlotPhase::Subscribing,
            ),
            (SlotPhase::Subscribing, SlotInputView::NotificationsEnabled(ok)) => if ok {
                self.at(SlotPhase::Announcing)
            } else {
                self.leaving(Farewell::Failed(BleErrorTag::NotifyFailed))
            },
            (SlotPhase::Announcing, SlotInputView::Done) => self.at(SlotPhase::Listening),
            (SlotPhase::Listening, SlotInputView::LinkLost) => WorkerView {
                phase: SlotPhase::Reporting,
                farewell: Farewell::Disconnected,
                ..self
            },
            (SlotPhase::Closing, SlotInputView::Done) => self.at(SlotPhase::Reporting),
            (SlotPhase::Reporting, SlotInputView::Done) => self.settled(),
            _ => self,
        }
    }

    /// The action that the worker asks for after an input: the action that
    /// the worker then waits for, except that a notification which is
    /// classified as a report is answered with `Forward`.
    pub open spec fn action_after(self, input: SlotInputView) -> SlotActionView {
        match (self.phase, input) {
            (SlotPhase::Listening, SlotInputView::Notification(data)) => match classified(
                data,
                self.descriptor,
            ) {
                Some(report) => SlotActionView::Forward(report),
                None => SlotActionView::Listen,
            },
            _ => self.after(input).awaited(),
        }
    }

    /// The worker is sound: it knows a device exactly while it is not idle.
    pub open spec fn sound(self) -> bool {
        self.phase is Idle <==> self.device is None
    }
}

/// The mathematical value of a device that may be absent.
pub open spec fn device_record(device: Option<DiscoveredDevice>) -> Option<DeviceRecord> {
    match device {
        Some(d) => Some(d@),
        None => None,
    }
}

/// The worker of one connection slot.
pub struct SlotWorker {
    slot: usize,
    phase: SlotPhase,
    device: Option<DiscoveredDevice>,
    descriptor: Option<HidDescriptor>,
    farewell: Farewell,
    pending: Option<DiscoveredDevice>,
}

impl View for SlotWorker {
    type V = WorkerView;

    closed spec fn view(&self) -> WorkerView {
        WorkerView {
            slot: self.slot,
            phase: self.phase,
            device: device_record(self.device),
            descriptor: self.descriptor,
            farewell: self.farewell,
            pending: device_record(self.pending),
        }
    }
}

impl SlotWorker {
    #[verifier::type_invariant]
    spec fn well_formed(self) -> bool {
        self.phase is Idle <==> self.device is None
    }

    /// The idle worker of the given slot.
    pub fn new(slot: usize) -> (worker: Self)
        ensures
            worker@ == (WorkerView {
                slot,
                phase: SlotPhase::Idle,
                device: None,
                descriptor: None,
                farewell: Farewell::Disconnected,
                pending: None,
            }),
    {
        Self {
            slot,
            phase: SlotPhase::Idle,
            device: None,
            descriptor: None,
            farewell: Farewell::Disconnected,
            pending: None,
        }
    }

    /// Where the worker stands.
    pub fn phase(&self) -> (phase: SlotPhase)
        ensures
            phase == self@.phase,
    {
        self.phase
    }

    /// The parsed report descriptor of the connected device, if it could
    /// be read.
    pub fn descriptor(&self) -> (descriptor: Option<HidDescriptor>)
        ensures
            descriptor == self@.descriptor,
    {
        self.descriptor
    }

    /// Takes one input and says what is to be done next.
    pub fn step(&mut self, input: SlotInput<'_>) -> (action: SlotAction)
        ensures
            final(self)@ == old(self)@.after(input@),
            action@ == old(self)@.action_after(input@),
            old(self)@.sound(),
            final(self)@.sound(),
    {
        proof {
            use_type_invariant(&*self);
        }
        match input {
            SlotInput::Command(command) => {
                if matches!(self.phase, SlotPhase::Idle) {
                    match command {
                        SlotCommand::Connect(device) => {
                            return self.connect_to(device);
                        },
                        SlotCommand::Disconnect => {},
                    }
                } else if can_be_cancelled(self.phase) {
                    let pending = match command {
                        SlotCommand::Connect(device) => Some(device),
                        SlotCommand::Disconnect => None,
                    };
                    self.pending = pending;
                    return self.leave(Farewell::Disconnected);
                }
            },
            SlotInput::LinkOpened(ok) => {
                if matches!(self.phase, SlotPhase::Connecting) {
                    if ok {
                        self.phase = SlotPhase::Encrypting;
                    } else {
                        return self.leave(Farewell::Failed(BleErrorTag::ConnectFailed));
                    }
                }
            },
            SlotInput::EncryptionRequested(outcome) => {
                if matches!(self.phase, SlotPhase::Encrypting) {
                    match outcome {
                        EncryptOutcome::Started => {
                            self.phase = SlotPhase::CheckingSecurity { checks: 0 };
                        },
                        EncryptOutcome::PeerKeysNotFound => {
                            self.phase = SlotPhase::RequestingPairing;
                        },
                        EncryptOutcome::Failed => {
                            return self.leave(Farewell::Failed(BleErrorTag::ConnectFailed));
                        },
                    }
                }
            },
            SlotInput::PairingRequested(ok) => {
                if matches!(self.phase, SlotPhase::RequestingPairing) {
                    if ok {
                        self.phase = SlotPhase::CheckingSecurity { checks: 0 };
                    } else {
                        return self.leave(Farewell::Failed(BleErrorTag::ConnectFailed));
                    }
                }
            },
            SlotInput::Security(mode) => {
                if let SlotPhase::CheckingSecurity { checks } = self.phase {
                    if mode.is_secured() {
                        self.phase = SlotPhase::Discovering;
                    } else {
                        self.phase = SlotPhase::Pausing { checks };
                    }
                }
            },
            SlotInput::Paused => {
                if let SlotPhase::Pausing { checks } = self.phase {
                    if checks < SECURITY_CHECKS - 1 {
                        self.phase = SlotPhase::CheckingSecurity { checks: checks + 1 };
                    } else {
                        return self.leave(Farewell::Failed(BleErrorTag::ConnectFailed));
                    }
                }
            },
            SlotInput::ServiceDiscovered(ok) => {
                if matches!(self.phase, SlotPhase::Discovering) {
                    if ok {
                        self.phase = SlotPhase::ReadingReportMap;
                    } else {
                        return self.leave(Farewell::Failed(BleErrorTag::HidNotFound));
                    }
                }
            },
            SlotInput::ProtocolModeWritten(_) => {
                if matches!(self.phase, SlotPhase::SettingProtocol) {
                    self.phase = SlotPhase::Subscribing;
                }
            },
            SlotInput::ReportMapRead(map) => {
                if matches!(self.phase, SlotPhase::ReadingReportMap) {
                    self.descriptor = match map {
                        Some(bytes) => HidDescriptor::parse(bytes),
                        None => None,
                    };
                    self.phase = SlotPhase::SettingProtocol;
                }
            },
            SlotInput::NotificationsEnabled(ok) => {
                if matches!(self.phase, SlotPhase::Subscribing) {
                    if ok {
                        self.phase = SlotPhase::Announcing;
                    } else {
                        return self.leave(Farewell::Failed(BleErrorTag::NotifyFailed));
                    }
                }
            },
            SlotInput::Notification(data) => {
                if matches!(self.phase, SlotPhase::Listening) {
                    let report = match &self.descriptor {
                        Some(descriptor) => classify_notification_with_hint(data, Some(descriptor)),
                        None => classify_notification_with_hint(data, None),
                    };
                    match report {
                        Some(report) => {
                            return SlotAction::Forward(report);
                        },
                        None => {},
                    }
                }
            },
            SlotInput::LinkLost => {
                if matches!(self.phase, SlotPhase::Listening) {
                    self.farewell = Farewell::Disconnected;
                    self.phase = SlotPhase::Reporting;
                }
            },
            SlotInput::Done => {
                match self.phase {
                    SlotPhase::Announcing => {
                        self.phase = SlotPhase::Listening;
                    },
                    SlotPhase::Closing => {
                        self.phase = SlotPhase::Reporting;
                    },
                    SlotPhase::Reporting => {
                        let next = match &self.pending {
                            Some(device) => Some(device.clone()),
                            None => None,
                        };
                        match next {
                            Some(device) => {
                                return self.connect_to(device);
                            },
                            None => {
                                self.idle();
                            },
                        }
                    },
                    _ => {},
                }
            },
        }
        self.awaited_action()
    }

    /// Goes idle.
    fn idle(&mut self)
        ensures
            final(self)@ == (WorkerView {
                phase: SlotPhase::Idle,
                device: None,
                descriptor: None,
                pending: None,
                ..old(self)@
            }),
    {
        *self = SlotWorker {
            slot: self.slot,
            phase: SlotPhase::Idle,
            device: None,
            descriptor: None,
            farewell: self.farewell,
            pending: None,
        };
    }

    /// Sets out to connect to `device`.
    fn connect_to(&mut self, device: DiscoveredDevice) -> (action: SlotAction)
        ensures
            final(self)@ == old(self)@.connecting_to(device@),
            action@ == SlotActionView::OpenLink(device@),
    {
        let action = SlotAction::OpenLink(device.clone());
        *self = SlotWorker {
            slot: self.slot,
            phase: SlotPhase::Connecting,
            device: Some(device),
            descriptor: None,
            farewell: self.farewell,
            pending: None,
        };
        action
    }

    /// Takes leave of the connection.
    fn leave(&mut self, farewell: Farewell) -> (action: SlotAction)
        requires
            !(old(self)@.phase is Idle),
        ensures
            final(self)@ == old(self)@.leaving(farewell),
            action@ == old(self)@.leaving(farewell).awaited(),
    {
        proof {
            use_type_invariant(&*self);
        }
        self.farewell = farewell;
        if has_link(self.phase) {
            self.phase = SlotPhase::Closing;
        } else {
            self.phase = SlotPhase::Reporting;
        }
        self.awaited_action()
    }

    /// The action whose result the worker waits for.
    fn awaited_action(&self) -> (action: SlotAction)
        ensures
            action@ == self@.awaited(),
    {
        proof {
            use_type_invariant(self);
        }
        match self.phase {
            SlotPhase::Idle => SlotAction::AwaitCommand,
            SlotPhase::Connecting => match &self.device {
                Some(device) => SlotAction::OpenLink(device.clone()),
                None => SlotAction::AwaitCommand,
            },
            SlotPhase::Encrypting => SlotAction::Encrypt,
            SlotPhase::RequestingPairing => SlotAction::RequestPairing,
            SlotPhase::CheckingSecurity { checks } => SlotAction::CheckSecurity,
            SlotPhase::Pausing { checks } => SlotAction::Pause(SECURITY_CHECK_INTERVAL_MS),
            SlotPhase::Discovering => SlotAction::DiscoverService,
            SlotPhase::SettingProtocol => SlotAction::WriteProtocolMode(BOOT_PROTOCOL_MODE),
            SlotPhase::ReadingReportMap => SlotAction::ReadReportMap,
            SlotPhase::Subscribing => SlotAction::EnableNotifications,
            SlotPhase::Announcing => match &self.device {
                Some(device) => SlotAction::Report(
                    SlotEvent::Connected { slot: self.slot, device: device.clone() },
                ),
                None => SlotAction::AwaitCommand,
            },
            SlotPhase::Listening => SlotAction::Listen,
            SlotPhase::Closing => SlotAction::CloseLink,
            SlotPhase::Reporting => match self.farewell {
                Farewell::Disconnected => SlotAction::Report(
                    SlotEvent::Disconnected { slot: self.slot },
                ),
                Farewell::Failed(tag) => SlotAction::Report(
                    SlotEvent::Error { slot: self.slot, tag },
                ),
            },
        }
    }
}

/// One input keeps a worker sound.
pub proof fn lemma_step_keeps_sound(worker: WorkerView, input: SlotInputView)
    requires
        worker.sound(),
    ensures
        worker.after(input).sound(),
{
}

/// A command that arrives while a link is open cancels the connection, and
/// the link is closed before anything is reported: the worker asks for
/// `CloseLink`, and only when that is done for `Disconnected` to be
/// reported.
pub proof fn lemma_cancel_closes_link_first(worker: WorkerView, command: SlotCommandView)
    requires
        worker.phase.can_be_cancelled(),
        worker.phase.has_link(),
    ensures
        worker.action_after(SlotInputView::Command(command)) == SlotActionView::CloseLink,
        worker.after(SlotInputView::Command(command)).phase == SlotPhase::Closing,
        worker.after(SlotInputView::Command(command)).action_after(SlotInputView::Done)
            == SlotActionView::Report(SlotEventView::Disconnected { slot: worker.slot }),
{
}

/// A `Connect` command that cancels a connection is not lost: once
/// `Disconnected` has been reported the worker sets out for the new device.
pub proof fn lemma_cancelling_connect_is_taken_up(worker: WorkerView, device: DeviceRecord)
    requires
        worker.phase.can_be_cancelled(),
    ensures
        ({
            let cancelled = worker.after(SlotInputView::Command(SlotCommandView::Connect(device)));
            let reported = if cancelled.phase is Closing {
                cancelled.after(SlotInputView::Done)
            } else {
                cancelled
            };
            &&& reported.phase == SlotPhase::Reporting
            &&& reported.action_after(SlotInputView::Done) == SlotActionView::OpenLink(device)
            &&& reported.after(SlotInputView::Done).phase == SlotPhase::Connecting
        }),
{
}

/// Whenever a step fails, the link is closed before the error is
/// reported, and the error is the one of the step: `ConnectFailed` while
/// connecting or securing, `HidNotFound` for the discovery, `NotifyFailed`
/// for the subscription.
pub proof fn lemma_failure_closes_link_and_reports(worker: WorkerView, input: SlotInputView)
    requires
        !(input is Command),
        !(worker.phase is Closing),
        worker.after(input).phase is Closing,
    ensures
        worker.phase.has_link(),
        worker.action_after(input) == SlotActionView::CloseLink,
        worker.after(input).farewell == Farewell::Failed(
            if worker.phase.stage() is Securing {
                BleErrorTag::ConnectFailed
            } else if worker.phase is Discovering {
                BleErrorTag::HidNotFound
            } else {
                BleErrorTag::NotifyFailed
            },
        ),
        worker.phase.stage() is Securing || worker.phase is Discovering
            || worker.phase is Subscribing,
        worker.after(input).action_after(SlotInputView::Done) == SlotActionView::Report(
            worker.after(input).farewell_event(),
        ),
{
}

/// The worker after `n` rounds of a check that finds the link unsecured
/// and the pause that follows.
pub open spec fn after_unsecured_rounds(worker: WorkerView, mode: SecurityMode, n: nat)
    -> WorkerView
    decreases n,
{
    if n == 0 {
        worker
    } else {
        after_unsecured_rounds(worker, mode, (n - 1) as nat).after(
            SlotInputView::Security(mode),
        ).after(SlotInputView::Paused)
    }
}

/// A link that stays unsecured is given up after 25 checks: the worker
/// then closes the link and takes leave with `ConnectFailed`. Before that
/// it keeps checking.
pub proof fn lemma_unsecured_link_is_given_up(worker: WorkerView, mode: SecurityMode, n: nat)
    requires
        worker.phase == (SlotPhase::CheckingSecurity { checks: 0 }),
        !mode.secured(),
        n <= 25,
    ensures
        n < 25 ==> after_unsecured_rounds(worker, mode, n).phase == (SlotPhase::CheckingSecurity {
            checks: n as u8,
        }),
        n == 25 ==> after_unsecured_rounds(worker, mode, n).phase == SlotPhase::Closing
            && after_unsecured_rounds(worker, mode, n).farewell == Farewell::Failed(
            BleErrorTag::ConnectFailed,
        ),
    decreases n,
{
    if n > 0 {
        lemma_unsecured_link_is_given_up(worker, mode, (n - 1) as nat);
    }
}

/// `Connected` is reported for a device only when notifications have been
/// enabled on it.
pub proof fn lemma_connected_only_when_subscribed(worker: WorkerView, input: SlotInputView)
    requires
        worker.sound(),
        worker.action_after(input) is Report,
        worker.action_after(input)->Report_0 is Connected,
    ensures
        worker.phase is Announcing || (worker.phase is Subscribing && input
            == SlotInputView::NotificationsEnabled(true)),
{
}

/// Whether the worker holds an open link in this phase.
fn has_link(phase: SlotPhase) -> (yes: bool)
    ensures
        yes == phase.has_link(),
{
    match phase {
        SlotPhase::Idle | SlotPhase::Connecting | SlotPhase::Reporting => false,
        _ => true,
    }
}

/// Whether a command cancels what the worker does in this phase.
fn can_be_cancelled(phase: SlotPhase) -> (yes: bool)
    ensures
        yes == phase.can_be_cancelled(),
{
    match phase {
        SlotPhase::Idle | SlotPhase::Closing | SlotPhase::Reporting => false,
        _ => true,
    }
}

} // verus!
