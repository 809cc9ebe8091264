//! The power manager.

use bt2usb::power::{PowerManager, PowerState, IDLE_TIMEOUT_SECS};
use bt2usb::power_logic::screen_should_be_on;

#[test]
fn new_manager_is_active() {
    let pm = PowerManager::new(1000);
    assert_eq!(pm.state(), PowerState::Active);
    assert!(!pm.ble_low_power());
    assert!(pm.display_on(1000));
    assert_eq!(IDLE_TIMEOUT_SECS, 60);
}

#[test]
fn inactivity_leads_to_idle_and_low_power() {
    let mut pm = PowerManager::new(1000);
    pm.tick(1060);
    assert_eq!(pm.state(), PowerState::Active);
    pm.tick(1061);
    assert_eq!(pm.state(), PowerState::Idle);
    pm.tick(1120);
    assert_eq!(pm.state(), PowerState::Idle);
    assert!(!pm.ble_low_power());
    pm.tick(1121);
    assert_eq!(pm.state(), PowerState::LowPower);
    assert!(pm.ble_low_power());
}

#[test]
fn connected_link_keeps_the_manager_out_of_low_power() {
    let mut pm = PowerManager::new(0);
    pm.set_ble_connected(true, 10);
    pm.tick(10 + 121);
    assert_eq!(pm.state(), PowerState::Idle);
    pm.tick(10 + 100_000);
    assert_eq!(pm.state(), PowerState::Idle);
    // When the link goes, the rule is applied at once.
    pm.set_ble_connected(false, 10 + 100_000);
    assert_eq!(pm.state(), PowerState::LowPower);
}

#[test]
fn connecting_counts_as_activity() {
    let mut pm = PowerManager::new(0);
    pm.tick(100);
    assert_eq!(pm.state(), PowerState::Idle);
    pm.set_ble_connected(true, 100);
    assert_eq!(pm.state(), PowerState::Active);
    pm.tick(160);
    assert_eq!(pm.state(), PowerState::Active);
    pm.tick(161);
    assert_eq!(pm.state(), PowerState::Idle);
}

#[test]
fn activity_wakes_the_manager() {
    let mut pm = PowerManager::new(0);
    pm.tick(500);
    assert_eq!(pm.state(), PowerState::LowPower);
    pm.activity(500);
    assert_eq!(pm.state(), PowerState::Active);
    pm.tick(560);
    assert_eq!(pm.state(), PowerState::Active);
    pm.tick(561);
    assert_eq!(pm.state(), PowerState::Idle);
}

#[test]
fn suspended_bus_means_low_power() {
    let mut pm = PowerManager::new(0);
    pm.set_ble_connected(true, 0);
    pm.set_usb_suspended(true, 5);
    assert_eq!(pm.state(), PowerState::LowPower);
    assert!(pm.ble_low_power());
    assert!(!pm.display_on(5));
    // Activity does not lift it while the bus sleeps.
    pm.activity(6);
    assert_eq!(pm.state(), PowerState::LowPower);
    pm.tick(7);
    assert_eq!(pm.state(), PowerState::LowPower);
    // The bus wakes up: that counts as activity.
    pm.set_usb_suspended(false, 300);
    assert_eq!(pm.state(), PowerState::Active);
    pm.tick(360);
    assert_eq!(pm.state(), PowerState::Active);
    pm.tick(361);
    assert_eq!(pm.state(), PowerState::Idle);
}

#[test]
fn resume_report_without_suspend_is_no_activity() {
    let mut pm = PowerManager::new(0);
    pm.set_usb_suspended(false, 100);
    // The bus was awake already: the idle time still counts from 0.
    assert_eq!(pm.state(), PowerState::Idle);
}

#[test]
fn display_goes_off_after_its_timeout() {
    let mut pm = PowerManager::new(0);
    pm.set_ble_connected(true, 0);
    pm.tick(119);
    assert_eq!(pm.state(), PowerState::Idle);
    assert!(pm.display_on(119));
    assert!(!pm.display_on(120));
    assert!(!pm.display_on(500));
    pm.activity(500);
    assert!(pm.display_on(500));
    assert!(pm.display_on(619));
    assert!(!pm.display_on(620));
}

#[test]
fn clock_that_reads_early_counts_as_no_time_passed() {
    let mut pm = PowerManager::new(1000);
    pm.tick(10);
    assert_eq!(pm.state(), PowerState::Active);
    assert!(pm.display_on(10));
}

#[test]
fn screen_policy_table() {
    assert!(screen_should_be_on(true, true, 0, 1));
    assert!(!screen_should_be_on(true, true, 0, 0));
    assert!(screen_should_be_on(true, false, u64::MAX, 0));
    assert!(!screen_should_be_on(false, false, 0, u64::MAX));
    assert!(!screen_should_be_on(true, true, u64::MAX, u64::MAX));
}
