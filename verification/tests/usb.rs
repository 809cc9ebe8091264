//! The report forwarder.

use bt2usb::config;
use bt2usb::error::{BleError, Error};
use bt2usb::hid::consumer::ConsumerReport;
use bt2usb::hid::keyboard::KeyboardReport;
use bt2usb::hid::mouse::MouseReport;
use bt2usb::hid::HidReport;
use bt2usb::usb::hid_device::{
    prepare_report, Endpoint, HID_MAX_PACKET_SIZE, REPORT_CHANNEL_CAPACITY, USB_MAX_PACKET_SIZE_0,
    USB_MAX_POWER_MA,
};

#[test]
fn keyboard_report_goes_to_the_keyboard_endpoint() {
    let report = HidReport::Keyboard(KeyboardReport {
        modifier: 0x02,
        reserved: 0,
        keycodes: [0x04, 0, 0, 0, 0, 0],
    });
    let mut buf = [0xFFu8; 8];
    let (endpoint, n) = prepare_report(&report, &mut buf);
    assert_eq!(endpoint, Endpoint::Keyboard);
    assert_eq!(n, 8);
    assert_eq!(buf, [0x02, 0x00, 0x04, 0x00, 0x00, 0x00, 0x00, 0x00]);
}

#[test]
fn mouse_report_goes_to_the_mouse_endpoint() {
    let report = HidReport::Mouse(MouseReport { buttons: 1, x: 5, y: -5, wheel: 1 });
    let mut buf = [0xFFu8; 8];
    let (endpoint, n) = prepare_report(&report, &mut buf);
    assert_eq!(endpoint, Endpoint::Mouse);
    assert_eq!(n, 4);
    assert_eq!(buf, [0x01, 0x05, 0xFB, 0x01, 0xFF, 0xFF, 0xFF, 0xFF]);
}

#[test]
fn consumer_report_goes_to_the_consumer_endpoint() {
    let report = HidReport::Consumer(ConsumerReport { usage: 0x00E9 });
    let mut buf = [0u8; 8];
    let (endpoint, n) = prepare_report(&report, &mut buf);
    assert_eq!(endpoint, Endpoint::Consumer);
    assert_eq!(n, 2);
    assert_eq!(&buf[..n], [0xE9, 0x00]);
}

#[test]
fn device_constants() {
    assert_eq!(config::USB_VID, 0x1209);
    assert_eq!(config::USB_PID, 0x0001);
    assert_eq!(config::USB_MANUFACTURER, "bt2usb");
    assert_eq!(config::USB_PRODUCT, "BT-to-USB HID Bridge");
    assert_eq!(config::USB_SERIAL_NUMBER, "000001");
    assert_eq!(config::USB_HID_POLL_MS, 1);
    assert_eq!(config::BLE_SCAN_DURATION_SECS, 8);
    assert_eq!(config::BLE_MAX_DISCOVERED, 8);
    assert_eq!(config::MAX_PAIRED_DEVICES, 4);
    assert_eq!(config::HID_SERVICE_UUID, 0x1812);
    assert_eq!(config::HID_REPORT_UUID, 0x2A4D);
    assert_eq!(config::HID_REPORT_MAP_UUID, 0x2A4B);
    assert_eq!(config::HID_PROTOCOL_MODE_UUID, 0x2A4E);
    assert_eq!(config::SCREEN_AUTO_OFF_TIMEOUT_SECS, 120);
    assert!(config::SCREEN_AUTO_OFF_ENABLED);
    assert_eq!(config::BUTTON_DEBOUNCE_MS, 50);
    assert_eq!(config::STORAGE_FLASH_PAGE_START, 240);
    assert_eq!(config::STORAGE_FLASH_PAGE_COUNT, 4);
    assert_eq!(HID_MAX_PACKET_SIZE, 8);
    assert_eq!(REPORT_CHANNEL_CAPACITY, 16);
    assert_eq!(USB_MAX_POWER_MA, 100);
    assert_eq!(USB_MAX_PACKET_SIZE_0, 64);
}

#[test]
fn ble_error_becomes_an_error() {
    assert_eq!(Error::from(BleError::ScanFailed), Error::Ble(BleError::ScanFailed));
    assert_eq!(Error::from(BleError::Raw(0x3002)), Error::Ble(BleError::Raw(0x3002)));
    let e: Error = BleError::NotifyFailed.into();
    assert_eq!(e, Error::Ble(BleError::NotifyFailed));
}
