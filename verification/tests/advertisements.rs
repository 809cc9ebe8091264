//! Advertisement parsing.

use bt2usb::ble::adv_parser::{contains_hid_service_uuid, extract_device_name};

#[test]
fn detect_hid_uuid_in_advertisement() {
    // AD structure: len=3, type=0x03 (Complete 16-bit UUIDs), UUID=0x1812
    let ad_data = [
        0x03, 0x03, 0x12, 0x18, // HID Service UUID in little-endian
    ];
    assert!(contains_hid_service_uuid(&ad_data));
}

#[test]
fn no_hid_uuid_in_advertisement() {
    // AD structure with Battery Service UUID (0x180F) instead
    let ad_data = [
        0x03, 0x03, 0x0F, 0x18, // Battery Service UUID
    ];
    assert!(!contains_hid_service_uuid(&ad_data));
}

#[test]
fn hid_uuid_among_multiple_uuids() {
    // Multiple 16-bit UUIDs: 0x180F (Battery), 0x1812 (HID), 0x1801 (GATT)
    let ad_data = [
        0x07, 0x03, // len=7, type=0x03 (Complete 16-bit UUIDs)
        0x0F, 0x18, // Battery
        0x12, 0x18, // HID - this should be found
        0x01, 0x18, // GATT
    ];
    assert!(contains_hid_service_uuid(&ad_data));
}

#[test]
fn incomplete_uuid_list() {
    // AD type 0x02 = Incomplete 16-bit UUIDs (should still be checked)
    let ad_data = [
        0x03, 0x02, 0x12, 0x18, // HID Service UUID
    ];
    assert!(contains_hid_service_uuid(&ad_data));
}

#[test]
fn empty_advertisement_data() {
    let ad_data: [u8; 0] = [];
    assert!(!contains_hid_service_uuid(&ad_data));
}

#[test]
fn malformed_ad_length_zero() {
    let ad_data = [0x00]; // len=0 should break parsing
    assert!(!contains_hid_service_uuid(&ad_data));
}

#[test]
fn extract_complete_local_name() {
    // AD structure: len=8, type=0x09 (Complete Local Name), "Keyboard"
    let ad_data = [
        0x09, 0x09, // len=9, type=0x09
        b'K', b'e', b'y', b'b', b'o', b'a', b'r', b'd',
    ];
    let name = extract_device_name(&ad_data);
    assert_eq!(name.as_str(), "Keyboard");
}

#[test]
fn extract_shortened_local_name() {
    // AD structure: len=4, type=0x08 (Shortened Local Name), "BT K"
    let ad_data = [
        0x05, 0x08, // len=5, type=0x08
        b'B', b'T', b' ', b'K',
    ];
    let name = extract_device_name(&ad_data);
    assert_eq!(name.as_str(), "BT K");
}

#[test]
fn no_name_in_advertisement() {
    // Only flags, no name
    let ad_data = [
        0x02, 0x01, 0x06, // Flags: LE General Discoverable
    ];
    let name = extract_device_name(&ad_data);
    assert_eq!(name.as_str(), "Unknown");
}

#[test]
fn name_truncated_to_32_chars() {
    // Very long name that exceeds 32 characters
    let mut ad_data = [0u8; 40];
    ad_data[0] = 35; // len
    ad_data[1] = 0x09; // Complete Local Name
    for i in 2..37 {
        ad_data[i] = b'X';
    }
    let name = extract_device_name(&ad_data);
    assert_eq!(name.len(), 32); // Truncated to heapless::String<32> capacity
}
