//! Bluetooth Low Energy subsystem.
//!
//! The bridge acts in the Central role:
//!
//! 1. **Scanner** - collects nearby peripherals that advertise the
//!    HID-over-GATT Profile (HOGP).
//! 2. **Slot worker** - takes one connection from connect to streaming.
//! 3. **Connection coordinator** - owns the two connection slots, carries
//!    out commands from the UI and reports status changes to it.
//!
//! Everything here is a decision: the radio itself is driven by the caller.

pub mod address;
pub mod adv_parser;
pub mod bonder;
pub mod coordinator;
pub mod multi_conn;
pub mod scanner;
pub mod slot;

use vstd::prelude::*;

pub use address::{AddressType, DeviceAddress};
use crate::bounded::{name_bytes, name_clone};

verus! {

/// What is known of one peripheral: its address, the UTF-8 bytes of its
/// name and a signal strength. This is the mathematical value of both a
/// discovered and a paired device.
pub struct DeviceRecord {
    pub address: DeviceAddress,
    pub name: Seq<u8>,
    pub rssi: i8,
}

/// Information about a discovered BLE peripheral.
#[derive(Debug)]
pub struct DiscoveredDevice {
    /// BLE address.
    pub address: DeviceAddress,
    /// Human-readable name (at most 32 bytes).
    pub name: heapless::String<32>,
    /// Received Signal Strength Indicator (dBm).
    pub rssi: i8,
}

impl View for DiscoveredDevice {
    type V = DeviceRecord;

    open spec fn view(&self) -> DeviceRecord {
        DeviceRecord { address: self.address, name: name_bytes(self.name), rssi: self.rssi }
    }
}

impl Clone for DiscoveredDevice {
    fn clone(&self) -> (copy: Self)
        ensures
            copy@ == self@,
    {
        DiscoveredDevice { address: self.address, name: name_clone(&self.name), rssi: self.rssi }
    }
}

/// Commands that the UI task can send to the BLE task.
#[derive(Clone, Copy, Debug, PartialEq, Eq)]
pub enum BleCommand {
    /// Start scanning for peripherals.
    StartScan,
    /// Connect to the peripheral at the given index in the discovered list.
    Connect(usize),
    /// Disconnect the currently connected peripherals.
    Disconnect,
}

/// Lightweight error tag for UI display (no dynamic alloc).
#[derive(Clone, Copy, Debug, PartialEq, Eq)]
pub enum BleErrorTag {
    ScanFailed,
    ConnectFailed,
    HidNotFound,
    NotifyFailed,
}

/// Events the BLE task publishes for the UI / main loop.
#[derive(Debug)]
pub enum BleEvent {
    /// Scan started.
    ScanStarted,
    /// A new peripheral was found during scanning.
    DeviceFound(DiscoveredDevice),
    /// Scan completed (no more results forthcoming).
    ScanComplete,
    /// Successfully connected & HID service ready.
    Connected(heapless::String<32>),
    /// Connection lost or intentionally closed.
    Disconnected,
    /// An error occurred (human-readable tag).
    Error(BleErrorTag),
}

/// The mathematical value of a [`BleEvent`].
pub enum BleEventView {
    ScanStarted,
    DeviceFound(DeviceRecord),
    ScanComplete,
    Connected(Seq<u8>),
    Disconnected,
    Error(BleErrorTag),
}

impl View for BleEvent {
    type V = BleEventView;

    open spec fn view(&self) -> BleEventView {
        match self {
            BleEvent::ScanStarted => BleEventView::ScanStarted,
            BleEvent::DeviceFound(d) => BleEventView::DeviceFound(d@),
            BleEvent::ScanComplete => BleEventView::ScanComplete,
            BleEvent::Connected(name) => BleEventView::Connected(name_bytes(*name)),
            BleEvent::Disconnected => BleEventView::Disconnected,
            BleEvent::Error(tag) => BleEventView::Error(*tag),
        }
    }
}

impl Clone for BleEvent {
    fn clone(&self) -> (copy: Self)
        ensures
            copy@ == self@,
    {
        match self {
            BleEvent::ScanStarted => BleEvent::ScanStarted,
            BleEvent::DeviceFound(d) => BleEvent::DeviceFound(d.clone()),
            BleEvent::ScanComplete => BleEvent::ScanComplete,
            BleEvent::Connected(name) => BleEvent::Connected(name_clone(name)),
            BleEvent::Disconnected => BleEvent::Disconnected,
            BleEvent::Error(tag) => BleEvent::Error(*tag),
        }
    }
}

} // verus!
