//! The slot worker's way through a connection.

use bt2usb::ble::multi_conn::{SlotCommand, SlotEvent};
use bt2usb::ble::slot::{
    connection_params, EncryptOutcome, SecurityMode, SlotAction, SlotInput, SlotPhase, SlotWorker,
    BOOT_PROTOCOL_MODE, SECURITY_CHECKS, SECURITY_CHECK_INTERVAL_MS,
};
use bt2usb::ble::{AddressType, BleErrorTag, DeviceAddress, DiscoveredDevice};
use bt2usb::hid::consumer::ConsumerReport;
use bt2usb::hid::mouse::MouseReport;
use bt2usb::hid::HidReport;

fn device(last: u8, name: &str) -> DiscoveredDevice {
    DiscoveredDevice {
        address: DeviceAddress::new(AddressType::Public, [1, 2, 3, 4, 5, last]),
        name: heapless::String::try_from(name).unwrap(),
        rssi: -33,
    }
}

fn connect(last: u8, name: &str) -> SlotInput<'static> {
    SlotInput::Command(SlotCommand::Connect(device(last, name)))
}

/// Takes a worker up to the point where it listens for notifications.
fn streaming_worker(slot: usize, report_map: Option<&[u8]>) -> SlotWorker {
    let mut w = SlotWorker::new(slot);
    assert!(matches!(w.step(connect(1, "Keyboard")), SlotAction::OpenLink(_)));
    assert!(matches!(w.step(SlotInput::LinkOpened(true)), SlotAction::Encrypt));
    assert!(matches!(
        w.step(SlotInput::EncryptionRequested(EncryptOutcome::Started)),
        SlotAction::CheckSecurity
    ));
    assert!(matches!(
        w.step(SlotInput::Security(SecurityMode::JustWorks)),
        SlotAction::DiscoverService
    ));
    assert!(matches!(w.step(SlotInput::ServiceDiscovered(true)), SlotAction::ReadReportMap));
    assert!(matches!(
        w.step(SlotInput::ReportMapRead(report_map)),
        SlotAction::WriteProtocolMode(BOOT_PROTOCOL_MODE)
    ));
    assert!(matches!(
        w.step(SlotInput::ProtocolModeWritten(true)),
        SlotAction::EnableNotifications
    ));
    match w.step(SlotInput::NotificationsEnabled(true)) {
        SlotAction::Report(SlotEvent::Connected { slot: s, device: d }) => {
            assert_eq!(s, slot);
            assert_eq!(d.name.as_str(), "Keyboard");
        }
        other => panic!("unexpected {:?}", other),
    }
    assert!(matches!(w.step(SlotInput::Done), SlotAction::Listen));
    assert_eq!(w.phase(), SlotPhase::Listening);
    w
}

#[test]
fn link_parameters_are_tuned_for_hid() {
    let p = connection_params();
    assert_eq!(p.min_conn_interval, 6);
    assert_eq!(p.max_conn_interval, 12);
    assert_eq!(p.slave_latency, 0);
    assert_eq!(p.conn_sup_timeout, 400);
    assert_eq!(SECURITY_CHECKS, 25);
    assert_eq!(SECURITY_CHECK_INTERVAL_MS, 200);
    assert_eq!(BOOT_PROTOCOL_MODE, 0);
}

#[test]
fn idle_worker_waits_for_a_command() {
    let mut w = SlotWorker::new(0);
    assert_eq!(w.phase(), SlotPhase::Idle);
    assert!(matches!(w.step(SlotInput::Command(SlotCommand::Disconnect)), SlotAction::AwaitCommand));
    assert!(matches!(w.step(SlotInput::Done), SlotAction::AwaitCommand));
    assert!(matches!(w.step(SlotInput::LinkLost), SlotAction::AwaitCommand));
    assert_eq!(w.phase(), SlotPhase::Idle);
}

#[test]
fn worker_goes_from_connect_to_streaming() {
    let mut w = SlotWorker::new(1);
    match w.step(connect(9, "Mouse")) {
        SlotAction::OpenLink(d) => {
            assert_eq!(d.name.as_str(), "Mouse");
            assert_eq!(d.address.bytes(), [1, 2, 3, 4, 5, 9]);
            assert_eq!(d.rssi, -33);
        }
        other => panic!("unexpected {:?}", other),
    }
    assert_eq!(w.phase(), SlotPhase::Connecting);
    let w = streaming_worker(1, None);
    assert_eq!(w.descriptor(), None);
}

#[test]
fn pairing_is_requested_when_no_keys_are_stored() {
    let mut w = SlotWorker::new(0);
    w.step(connect(1, "Keyboard"));
    w.step(SlotInput::LinkOpened(true));
    assert!(matches!(
        w.step(SlotInput::EncryptionRequested(EncryptOutcome::PeerKeysNotFound)),
        SlotAction::RequestPairing
    ));
    assert_eq!(w.phase(), SlotPhase::RequestingPairing);
    assert!(matches!(w.step(SlotInput::PairingRequested(true)), SlotAction::CheckSecurity));
    assert_eq!(w.phase(), SlotPhase::CheckingSecurity { checks: 0 });
}

#[test]
fn failed_link_is_reported_without_closing() {
    let mut w = SlotWorker::new(1);
    w.step(connect(1, "Keyboard"));
    match w.step(SlotInput::LinkOpened(false)) {
        SlotAction::Report(SlotEvent::Error { slot, tag }) => {
            assert_eq!(slot, 1);
            assert_eq!(tag, BleErrorTag::ConnectFailed);
        }
        other => panic!("unexpected {:?}", other),
    }
    assert!(matches!(w.step(SlotInput::Done), SlotAction::AwaitCommand));
    assert_eq!(w.phase(), SlotPhase::Idle);
}

fn expect_failure(w: &mut SlotWorker, input: SlotInput<'_>, expected: BleErrorTag) {
    assert!(matches!(w.step(input), SlotAction::CloseLink));
    assert_eq!(w.phase(), SlotPhase::Closing);
    match w.step(SlotInput::Done) {
        SlotAction::Report(SlotEvent::Error { slot: _, tag }) => assert_eq!(tag, expected),
        other => panic!("unexpected {:?}", other),
    }
    assert!(matches!(w.step(SlotInput::Done), SlotAction::AwaitCommand));
    assert_eq!(w.phase(), SlotPhase::Idle);
}

#[test]
fn failed_encryption_closes_the_link() {
    let mut w = SlotWorker::new(0);
    w.step(connect(1, "Keyboard"));
    w.step(SlotInput::LinkOpened(true));
    expect_failure(
        &mut w,
        SlotInput::EncryptionRequested(EncryptOutcome::Failed),
        BleErrorTag::ConnectFailed,
    );
}

#[test]
fn refused_pairing_closes_the_link() {
    let mut w = SlotWorker::new(0);
    w.step(connect(1, "Keyboard"));
    w.step(SlotInput::LinkOpened(true));
    w.step(SlotInput::EncryptionRequested(EncryptOutcome::PeerKeysNotFound));
    expect_failure(&mut w, SlotInput::PairingRequested(false), BleErrorTag::ConnectFailed);
}

#[test]
fn missing_hid_service_gives_hid_not_found() {
    let mut w = SlotWorker::new(0);
    w.step(connect(1, "Keyboard"));
    w.step(SlotInput::LinkOpened(true));
    w.step(SlotInput::EncryptionRequested(EncryptOutcome::Started));
    w.step(SlotInput::Security(SecurityMode::LescMitm));
    expect_failure(&mut w, SlotInput::ServiceDiscovered(false), BleErrorTag::HidNotFound);
}

#[test]
fn failed_subscription_gives_notify_failed() {
    let mut w = SlotWorker::new(0);
    w.step(connect(1, "Keyboard"));
    w.step(SlotInput::LinkOpened(true));
    w.step(SlotInput::EncryptionRequested(EncryptOutcome::Started));
    w.step(SlotInput::Security(SecurityMode::Mitm));
    w.step(SlotInput::ServiceDiscovered(true));
    w.step(SlotInput::ReportMapRead(None));
    // The Protocol Mode may fail to be written: the worker goes on.
    assert!(matches!(
        w.step(SlotInput::ProtocolModeWritten(false)),
        SlotAction::EnableNotifications
    ));
    expect_failure(&mut w, SlotInput::NotificationsEnabled(false), BleErrorTag::NotifyFailed);
}

#[test]
fn unsecured_link_is_given_up_after_25_checks() {
    let mut w = SlotWorker::new(0);
    w.step(connect(1, "Keyboard"));
    w.step(SlotInput::LinkOpened(true));
    w.step(SlotInput::EncryptionRequested(EncryptOutcome::Started));
    let modes = [SecurityMode::Open, SecurityMode::NoAccess];
    for check in 0..25u8 {
        assert_eq!(w.phase(), SlotPhase::CheckingSecurity { checks: check });
        match w.step(SlotInput::Security(modes[check as usize % 2])) {
            SlotAction::Pause(ms) => assert_eq!(ms, 200),
            other => panic!("unexpected {:?}", other),
        }
        let next = w.step(SlotInput::Paused);
        if check < 24 {
            assert!(matches!(next, SlotAction::CheckSecurity));
        } else {
            assert!(matches!(next, SlotAction::CloseLink));
        }
    }
    match w.step(SlotInput::Done) {
        SlotAction::Report(SlotEvent::Error { slot: 0, tag }) => {
            assert_eq!(tag, BleErrorTag::ConnectFailed)
        }
        other => panic!("unexpected {:?}", other),
    }
}

#[test]
fn link_secured_at_the_last_check_goes_on() {
    let mut w = SlotWorker::new(0);
    w.step(connect(1, "Keyboard"));
    w.step(SlotInput::LinkOpened(true));
    w.step(SlotInput::EncryptionRequested(EncryptOutcome::Started));
    for _ in 0..24 {
        w.step(SlotInput::Security(SecurityMode::Open));
        w.step(SlotInput::Paused);
    }
    assert_eq!(w.phase(), SlotPhase::CheckingSecurity { checks: 24 });
    assert!(matches!(
        w.step(SlotInput::Security(SecurityMode::Signed)),
        SlotAction::DiscoverService
    ));
}

#[test]
fn every_mode_but_open_and_no_access_is_secured() {
    assert!(!SecurityMode::NoAccess.is_secured());
    assert!(!SecurityMode::Open.is_secured());
    assert!(SecurityMode::JustWorks.is_secured());
    assert!(SecurityMode::Mitm.is_secured());
    assert!(SecurityMode::LescMitm.is_secured());
    assert!(SecurityMode::Signed.is_secured());
    assert!(SecurityMode::SignedMitm.is_secured());
}

#[test]
fn notifications_are_classified_and_forwarded() {
    let mut w = streaming_worker(0, None);
    match w.step(SlotInput::Notification(&[0x01, 0x0A, 0xFB])) {
        SlotAction::Forward(report) => assert_eq!(
            report,
            HidReport::Mouse(MouseReport { buttons: 1, x: 10, y: -5, wheel: 0 })
        ),
        other => panic!("unexpected {:?}", other),
    }
    assert_eq!(w.phase(), SlotPhase::Listening);
    // What cannot be classified is dropped.
    assert!(matches!(w.step(SlotInput::Notification(&[0; 5])), SlotAction::Listen));
    assert!(matches!(w.step(SlotInput::Notification(&[])), SlotAction::Listen));
    assert_eq!(w.phase(), SlotPhase::Listening);
}

#[test]
fn report_map_guides_the_classifier() {
    let map = [0x05, 0x0C, 0x85, 0x03, 0x81, 0x00];
    let mut w = streaming_worker(0, Some(&map));
    let descriptor = w.descriptor().unwrap();
    assert!(descriptor.has_consumer);
    assert_eq!(descriptor.consumer_report_id, Some(3));
    // Three bytes would be a mouse report by length; the report map says
    // that report ID 3 announces a consumer report.
    match w.step(SlotInput::Notification(&[0x03, 0xE9, 0x00])) {
        SlotAction::Forward(report) => {
            assert_eq!(report, HidReport::Consumer(ConsumerReport { usage: 0x00E9 }))
        }
        other => panic!("unexpected {:?}", other),
    }
    // A report map that shows nothing leaves the length to decide.
    let mut plain = streaming_worker(0, Some(&[0xC0]));
    assert_eq!(plain.descriptor(), None);
    assert!(matches!(
        plain.step(SlotInput::Notification(&[0x03, 0xE9, 0x00])),
        SlotAction::Forward(HidReport::Mouse(_))
    ));
}

#[test]
fn lost_link_is_reported_as_disconnected() {
    let mut w = streaming_worker(1, None);
    match w.step(SlotInput::LinkLost) {
        SlotAction::Report(SlotEvent::Disconnected { slot }) => assert_eq!(slot, 1),
        other => panic!("unexpected {:?}", other),
    }
    assert_eq!(w.phase(), SlotPhase::Reporting);
    assert!(matches!(w.step(SlotInput::Done), SlotAction::AwaitCommand));
    assert_eq!(w.phase(), SlotPhase::Idle);
    assert_eq!(w.descriptor(), None);
}

#[test]
fn disconnect_command_closes_the_link_first() {
    let mut w = streaming_worker(0, None);
    assert!(matches!(w.step(SlotInput::Command(SlotCommand::Disconnect)), SlotAction::CloseLink));
    assert!(matches!(
        w.step(SlotInput::Done),
        SlotAction::Report(SlotEvent::Disconnected { slot: 0 })
    ));
    assert!(matches!(w.step(SlotInput::Done), SlotAction::AwaitCommand));
}

#[test]
fn connect_command_preempts_and_is_taken_up() {
    let mut w = streaming_worker(0, None);
    assert!(matches!(w.step(connect(2, "Mouse")), SlotAction::CloseLink));
    assert!(matches!(
        w.step(SlotInput::Done),
        SlotAction::Report(SlotEvent::Disconnected { slot: 0 })
    ));
    match w.step(SlotInput::Done) {
        SlotAction::OpenLink(d) => assert_eq!(d.name.as_str(), "Mouse"),
        other => panic!("unexpected {:?}", other),
    }
    assert_eq!(w.phase(), SlotPhase::Connecting);
}

#[test]
fn command_while_connecting_cancels_without_a_link() {
    let mut w = SlotWorker::new(1);
    w.step(connect(1, "Keyboard"));
    // No link is open yet: there is nothing to close.
    assert!(matches!(
        w.step(SlotInput::Command(SlotCommand::Disconnect)),
        SlotAction::Report(SlotEvent::Disconnected { slot: 1 })
    ));
    assert!(matches!(w.step(SlotInput::Done), SlotAction::AwaitCommand));
}

#[test]
fn command_cancels_every_busy_phase() {
    let steps: [fn(&mut SlotWorker); 6] = [
        |w| {
            w.step(SlotInput::LinkOpened(true));
        },
        |w| {
            w.step(SlotInput::EncryptionRequested(EncryptOutcome::Started));
        },
        |w| {
            w.step(SlotInput::Security(SecurityMode::Open));
        },
        |w| {
            w.step(SlotInput::Paused);
            w.step(SlotInput::Security(SecurityMode::JustWorks));
        },
        |w| {
            w.step(SlotInput::ServiceDiscovered(true));
        },
        |w| {
            w.step(SlotInput::ReportMapRead(None));
        },
    ];
    for upto in 1..=steps.len() {
        let mut w = SlotWorker::new(0);
        w.step(connect(1, "Keyboard"));
        for step in steps.iter().take(upto) {
            step(&mut w);
        }
        assert!(matches!(
            w.step(SlotInput::Command(SlotCommand::Disconnect)),
            SlotAction::CloseLink
        ));
        assert!(matches!(
            w.step(SlotInput::Done),
            SlotAction::Report(SlotEvent::Disconnected { slot: 0 })
        ));
    }
}

#[test]
fn input_that_answers_nothing_changes_nothing() {
    let mut w = SlotWorker::new(0);
    w.step(connect(1, "Keyboard"));
    // The worker waits for the link; other results are not for it.
    for _ in 0..2 {
        match w.step(SlotInput::ServiceDiscovered(true)) {
            SlotAction::OpenLink(d) => assert_eq!(d.name.as_str(), "Keyboard"),
            other => panic!("unexpected {:?}", other),
        }
        assert_eq!(w.phase(), SlotPhase::Connecting);
    }
    assert!(matches!(w.step(SlotInput::Notification(&[0; 8])), SlotAction::OpenLink(_)));
    w.step(SlotInput::LinkOpened(true));
    assert!(matches!(w.step(SlotInput::LinkOpened(true)), SlotAction::Encrypt));
    assert!(matches!(w.step(SlotInput::Paused), SlotAction::Encrypt));
    assert_eq!(w.phase(), SlotPhase::Encrypting);
}
