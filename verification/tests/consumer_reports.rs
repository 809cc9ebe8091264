//! Consumer control reports.

use bt2usb::hid::consumer::{ConsumerReport, ConsumerUsage};

#[test]
fn consumer_consumer_report_empty() {
    let report = ConsumerReport::empty();
    assert!(report.is_empty());
    assert_eq!(report.get_usage(), ConsumerUsage::NoAction);
}

#[test]
fn consumer_consumer_report_volume_up() {
    let report = ConsumerReport::new(ConsumerUsage::VolumeUp);
    assert!(!report.is_empty());
    assert_eq!(report.usage, 0x00E9);
}

#[test]
fn consumer_consumer_report_serialize() {
    let report = ConsumerReport::new(ConsumerUsage::PlayPause);
    let mut buf = [0u8; 2];
    let len = report.serialize(&mut buf);
    assert_eq!(len, 2);
    assert_eq!(buf, [0xCD, 0x00]); // Little-endian 0x00CD
}

#[test]
fn consumer_consumer_report_from_bytes() {
    let data = [0xE9, 0x00]; // Volume Up
    let report = ConsumerReport::from_ble_bytes(&data).unwrap();
    assert_eq!(report.get_usage(), ConsumerUsage::VolumeUp);
}
