//! Unified error type.
//!
//! All error variants carry only fixed-size data.

use vstd::prelude::*;

verus! {

/// Subset of BLE errors we propagate (keeps the enum `Copy`-friendly).
#[derive(Debug, Clone, Copy, PartialEq, Eq)]
pub enum BleError {
    /// GAP / GATT raw error code from the radio stack.
    Raw(u32),
    /// Scan was cancelled or could not start.
    ScanFailed,
    /// Connection attempt failed.
    ConnectFailed,
    /// GATT discovery failed.
    DiscoveryFailed,
    /// Characteristic subscribe/notify failed.
    NotifyFailed,
}

/// Top-level error type used across the application.
#[derive(Debug, Clone, Copy, PartialEq, Eq)]
pub enum Error {
    // BLE
    /// The radio stack returned a BLE-level error.
    Ble(BleError),
    /// No BLE adapter could be initialised.
    BleNotAvailable,
    /// BLE scan completed but found zero peripherals.
    NoDevicesFound,
    /// The selected peripheral does not expose an HID service.
    HidServiceNotFound,
    /// The HID Report characteristic (0x2A4D) was not found.
    HidReportCharNotFound,
    /// Connection to the peripheral was lost unexpectedly.
    Disconnected,
    // USB
    /// USB stack returned an error.
    Usb,
    // Storage
    /// Flash read/write/erase failed.
    Storage,
    // UI / Display
    /// I2C transaction to the display failed.
    Display,
    // Generic
    /// Buffer too small for the requested operation.
    BufferOverflow,
    /// Operation timed out.
    Timeout,
}

impl vstd::std_specs::convert::FromSpecImpl<BleError> for Error {
    open spec fn obeys_from_spec() -> bool {
        true
    }

    open spec fn from_spec(e: BleError) -> Self {
        Error::Ble(e)
    }
}

impl From<BleError> for Error {
    fn from(e: BleError) -> (error: Self) {
        Error::Ble(e)
    }
}

} // verus!
