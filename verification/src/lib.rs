//! Core logic of a dongle that bridges Bluetooth Low Energy HID peripherals
//! (keyboards, mice, media remotes) to a USB host.
//!
//! The crate holds the decisions of the bridge, each with a contract that
//! is proved:
//!
//! - [`hid`]: the three canonical reports, the report descriptor parser and
//!   the classifier that turns a notification into a report.
//! - [`ble`]: addresses, the advertisement parser, the scan list, the
//!   connection slots with their coordinator, the slot worker and the bond
//!   keys.
//! - [`storage`]: the store of paired devices and its saved form.
//! - [`power`] and [`power_logic`]: the power states and the screen policy.
//! - [`ui`]: the five-screen view controller and the texts of the screens.
//! - [`usb`]: the choice of the USB endpoint for each report.
//! - [`bounded`]: what is taken on trust about the fixed-capacity
//!   containers that hold names and device lists.
//!
//! Radio, USB, flash, buttons, display and clock are not touched here: the
//! caller carries out what the crate decides and hands back what came of
//! it.

pub mod ble;
pub mod bounded;
pub mod config;
pub mod error;
pub mod hid;
pub mod power;
pub mod power_logic;
pub mod storage;
pub mod ui;
pub mod usb;
pub mod wire;
