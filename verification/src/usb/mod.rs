//! USB Device subsystem - presents a composite HID device to the host.
//!
//! The host sees three HID interfaces: keyboard, mouse and consumer
//! control. Each canonical report goes to the endpoint of its kind.

pub mod hid_device;
