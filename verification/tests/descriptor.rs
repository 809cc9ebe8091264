//! The report descriptor parser.

use bt2usb::hid::consumer::CONSUMER_REPORT_DESCRIPTOR;
use bt2usb::hid::keyboard::KEYBOARD_REPORT_DESCRIPTOR;
use bt2usb::hid::mouse::MOUSE_REPORT_DESCRIPTOR;
use bt2usb::hid::report_protocol::{DesktopUsage, HidDescriptor, ReportKind, UsagePage};

#[test]
fn usb_keyboard_descriptor_shows_a_keyboard() {
    let d = HidDescriptor::parse(&KEYBOARD_REPORT_DESCRIPTOR).unwrap();
    assert!(d.has_keyboard);
    assert!(!d.has_mouse);
    assert!(!d.has_consumer);
    assert_eq!(d.keyboard_report_id, None);
    assert!(!d.has_report_ids());
    assert_eq!(KEYBOARD_REPORT_DESCRIPTOR.len(), 64);
}

#[test]
fn usb_mouse_descriptor_shows_a_mouse() {
    // The first Input item comes under the Button page and the later ones
    // under Generic Desktop with usages X, Y and Wheel: none of them is seen
    // with usage Mouse or Pointer in force.
    let d = HidDescriptor::parse(&MOUSE_REPORT_DESCRIPTOR);
    assert_eq!(d, None);
    assert_eq!(MOUSE_REPORT_DESCRIPTOR.len(), 62);
}

#[test]
fn usb_consumer_descriptor_shows_consumer_control() {
    let d = HidDescriptor::parse(&CONSUMER_REPORT_DESCRIPTOR).unwrap();
    assert!(d.has_consumer);
    assert!(!d.has_keyboard);
    assert!(!d.has_mouse);
    assert_eq!(d.consumer_report_id, None);
    assert_eq!(CONSUMER_REPORT_DESCRIPTOR.len(), 23);
}

#[test]
fn report_ids_are_adopted_per_capability() {
    let map = [
        0x05, 0x07, // Usage Page (Keyboard)
        0x85, 0x01, // Report ID 1
        0x81, 0x02, // Input
        0x05, 0x01, // Usage Page (Generic Desktop)
        0x09, 0x02, // Usage (Mouse)
        0x85, 0x02, // Report ID 2
        0x81, 0x06, // Input
        0x05, 0x0C, // Usage Page (Consumer)
        0x85, 0x03, // Report ID 3
        0x81, 0x00, // Input
    ];
    let d = HidDescriptor::parse(&map).unwrap();
    assert!(d.has_keyboard && d.has_mouse && d.has_consumer);
    assert_eq!(d.keyboard_report_id, Some(1));
    assert_eq!(d.mouse_report_id, Some(2));
    assert_eq!(d.consumer_report_id, Some(3));
    assert!(d.has_report_ids());
    assert_eq!(d.report_kind_for_id(1), Some(ReportKind::Keyboard));
    assert_eq!(d.report_kind_for_id(2), Some(ReportKind::Mouse));
    assert_eq!(d.report_kind_for_id(3), Some(ReportKind::Consumer));
    assert_eq!(d.report_kind_for_id(4), None);
    assert_eq!(d.report_kind_for_id(0), None);
}

#[test]
fn first_report_id_wins() {
    let map = [
        0x05, 0x07, // Usage Page (Keyboard)
        0x85, 0x05, // Report ID 5
        0x81, 0x02, // Input
        0x85, 0x06, // Report ID 6
        0x81, 0x02, // Input
    ];
    let d = HidDescriptor::parse(&map).unwrap();
    assert_eq!(d.keyboard_report_id, Some(5));
}

#[test]
fn input_before_any_report_id_leaves_the_id_open() {
    let map = [
        0x05, 0x07, // Usage Page (Keyboard)
        0x81, 0x02, // Input, no report ID yet
        0x85, 0x09, // Report ID 9
        0x81, 0x02, // Input
    ];
    let d = HidDescriptor::parse(&map).unwrap();
    assert!(d.has_keyboard);
    assert_eq!(d.keyboard_report_id, Some(9));
}

#[test]
fn pointer_usage_counts_as_mouse() {
    let map = [0x05, 0x01, 0x09, 0x01, 0x81, 0x06];
    let d = HidDescriptor::parse(&map).unwrap();
    assert!(d.has_mouse);
    assert_eq!(d.mouse_report_id, None);

    let keyboard_usage = [0x05, 0x01, 0x09, 0x06, 0x81, 0x06];
    assert_eq!(HidDescriptor::parse(&keyboard_usage), None);
}

#[test]
fn wide_items_are_read_little_endian() {
    let map = [
        0x06, 0x0C, 0x00, // Usage Page (Consumer), two bytes
        0x87, 0x2A, 0x01, 0x00, 0x00, // Report ID, four bytes: low byte 0x2A
        0x0A, 0x02, 0x01, // Usage, two bytes
        0x81, 0x00, // Input
    ];
    let d = HidDescriptor::parse(&map).unwrap();
    assert!(d.has_consumer);
    assert_eq!(d.consumer_report_id, Some(0x2A));

    let vendor_page = [0x06, 0x0C, 0xFF, 0x81, 0x00];
    assert_eq!(HidDescriptor::parse(&vendor_page), None);
}

#[test]
fn output_and_feature_items_show_nothing() {
    let map = [
        0x05, 0x07, // Usage Page (Keyboard)
        0x91, 0x02, // Output
        0xB1, 0x02, // Feature
        0xA1, 0x01, // Collection
        0xC0, // End Collection
    ];
    assert_eq!(HidDescriptor::parse(&map), None);
}

#[test]
fn empty_descriptor_shows_nothing() {
    assert_eq!(HidDescriptor::parse(&[]), None);
}

#[test]
fn truncated_descriptor_is_read_up_to_the_last_whole_item() {
    // The Input item is cut off: nothing is seen.
    assert_eq!(HidDescriptor::parse(&[0x05, 0x07, 0x81]), None);
    // The keyboard Input item is whole, the following item is cut off.
    let d = HidDescriptor::parse(&[0x05, 0x07, 0x81, 0x02, 0x26, 0xFF]).unwrap();
    assert!(d.has_keyboard);
    // A size code of 3 announces four bytes.
    assert_eq!(HidDescriptor::parse(&[0x07, 0x07, 0x00, 0x00, 0x81, 0x02]), None);
}

#[test]
fn usage_page_codes() {
    assert_eq!(UsagePage::from(0x01), UsagePage::GenericDesktop);
    assert_eq!(UsagePage::from(0x07), UsagePage::Keyboard);
    assert_eq!(UsagePage::from(0x08), UsagePage::Led);
    assert_eq!(UsagePage::from(0x09), UsagePage::Button);
    assert_eq!(UsagePage::from(0x0C), UsagePage::Consumer);
    assert_eq!(UsagePage::from(0xFF00), UsagePage::Unknown(0xFF00));
}

#[test]
fn desktop_usage_codes() {
    assert_eq!(DesktopUsage::from(0x01), DesktopUsage::Pointer);
    assert_eq!(DesktopUsage::from(0x02), DesktopUsage::Mouse);
    assert_eq!(DesktopUsage::from(0x06), DesktopUsage::Keyboard);
    assert_eq!(DesktopUsage::from(0x30), DesktopUsage::X);
    assert_eq!(DesktopUsage::from(0x31), DesktopUsage::Y);
    assert_eq!(DesktopUsage::from(0x38), DesktopUsage::Wheel);
    assert_eq!(DesktopUsage::from(0x04), DesktopUsage::Unknown(0x04));
}
