//! Power management - low-power modes for battery operation.
//!
//! The manager gathers activity, the state of the USB bus and the state of
//! the BLE links into one of three power states:
//!
//! ```text
//! if usb_suspended                                   -> LowPower
//! else if inactive > 2 * IDLE and not ble_connected  -> LowPower
//! else if inactive > IDLE                            -> Idle
//! else                                               -> Active
//! ```
//!
//! The rule is applied at every input and at every tick. Time is handed in
//! by the caller, in whole seconds of a clock that never runs backwards.

use vstd::prelude::*;

use crate::config::{SCREEN_AUTO_OFF_ENABLED, SCREEN_AUTO_OFF_TIMEOUT_SECS};
use crate::power_logic::{screen_on, screen_should_be_on};

verus! {

/// Inactivity timeout before entering low-power mode.
pub const IDLE_TIMEOUT_SECS: u64 = 60;

/// Power state.
#[derive(Clone, Copy, Debug, PartialEq, Eq)]
pub enum PowerState {
    /// Normal operation - BLE active, USB active.
    Active,
    /// Idle - no HID activity, but connections maintained.
    Idle,
    /// Low power - BLE idle, display off.
    LowPower,
}

impl PowerState {
    /// How deep the state is: 0 for `Active`, 1 for `Idle`, 2 for
    /// `LowPower`.
    pub open spec fn depth(self) -> int {
        match self {
            PowerState::Active => 0,
            PowerState::Idle => 1,
            PowerState::LowPower => 2,
        }
    }
}

/// The power state that the rule gives.
pub open spec fn power_state_for(usb_suspended: bool, ble_connected: bool, inactive_secs: u64)
    -> PowerState {
    if usb_suspended || (inactive_secs > 120 && !ble_connected) {
        PowerState::LowPower
    } else if inactive_secs > 60 {
        PowerState::Idle
    } else {
        PowerState::Active
    }
}

/// The seconds that have passed from `since` to `now`; none if the clock
/// reads earlier than `since`.
pub open spec fn seconds_between(since: u64, now: u64) -> u64 {
    if now >= since {
        (now - since) as u64
    } else {
        0
    }
}

/// The mathematical value of a [`PowerManager`].
pub struct PowerView {
    pub state: PowerState,
    pub last_activity: u64,
    pub ble_connected: bool,
    pub usb_suspended: bool,
}

impl PowerView {
    /// The same inputs with the state that the rule gives at `now`.
    pub open spec fn judged(self, now: u64) -> PowerView {
        PowerView {
            state: power_state_for(
                self.usb_suspended,
                self.ble_connected,
                seconds_between(self.last_activity, now),
            ),
            ..self
        }
    }
}

/// Power manager tracks activity and manages sleep modes.
pub struct PowerManager {
    state: PowerState,
    last_activity: u64,
    ble_connected: bool,
    usb_suspended: bool,
}

impl View for PowerManager {
    type V = PowerView;

    closed spec fn view(&self) -> PowerView {
        PowerView {
            state: self.state,
            last_activity: self.last_activity,
            ble_connected: self.ble_connected,
            usb_suspended: self.usb_suspended,
        }
    }
}

impl PowerManager {
    /// Create a new power manager at time `now`: active, with no link and
    /// the bus awake.
    pub fn new(now: u64) -> (manager: Self)
        ensures
            manager@ == (PowerView {
                state: PowerState::Active,
                last_activity: now,
                ble_connected: false,
                usb_suspended: false,
            }),
    {
        Self {
            state: PowerState::Active,
            last_activity: now,
            ble_connected: false,
            usb_suspended: false,
        }
    }

    /// Record activity (keypress, mouse move, button press) at time `now`.
    pub fn activity(&mut self, now: u64)
        ensures
            final(self)@ == (PowerView { last_activity: now, ..old(self)@ }).judged(now),
    {
        self.last_activity = now;
        self.update_state(now);
    }

    /// Update BLE connection state. A link that comes up counts as
    /// activity.
    pub fn set_ble_connected(&mut self, connected: bool, now: u64)
        ensures
            final(self)@ == (PowerView {
                ble_connected: connected,
                last_activity: if connected {
                    now
                } else {
                    old(self)@.last_activity
                },
                ..old(self)@
            }).judged(now),
    {
        self.ble_connected = connected;
        if connected {
            self.last_activity = now;
        }
        self.update_state(now);
    }

    /// Update USB suspend state from USB bus events. A bus that wakes up
    /// counts as activity.
    pub fn set_usb_suspended(&mut self, suspended: bool, now: u64)
        ensures
            final(self)@ == (PowerView {
                usb_suspended: suspended,
                last_activity: if old(self)@.usb_suspended && !suspended {
                    now
                } else {
                    old(self)@.last_activity
                },
                ..old(self)@
            }).judged(now),
    {
        if self.usb_suspended != suspended {
            self.usb_suspended = suspended;
            if !suspended {
                self.last_activity = now;
            }
        }
        self.update_state(now);
    }

    /// Check if display should be on at time `now`.
    pub fn display_on(&self, now: u64) -> (on: bool)
        ensures
            on == screen_on(
                self@.state is Active || self@.state is Idle,
                SCREEN_AUTO_OFF_ENABLED,
                seconds_between(self@.last_activity, now),
                SCREEN_AUTO_OFF_TIMEOUT_SECS,
            ),
    {
        let base_display_on = match self.state {
            PowerState::Active | PowerState::Idle => true,
            PowerState::LowPower => false,
        };
        let idle_secs = self.inactive_secs(now);
        screen_should_be_on(
            base_display_on,
            SCREEN_AUTO_OFF_ENABLED,
            idle_secs,
            SCREEN_AUTO_OFF_TIMEOUT_SECS,
        )
    }

    /// Check if we should reduce BLE activity.
    pub fn ble_low_power(&self) -> (low: bool)
        ensures
            low == (self@.state is LowPower),
    {
        match self.state {
            PowerState::LowPower => true,
            _ => false,
        }
    }

    /// Get current power state.
    pub fn state(&self) -> (state: PowerState)
        ensures
            state == self@.state,
    {
        self.state
    }

    /// Periodic tick - call every second.
    pub fn tick(&mut self, now: u64)
        ensures
            final(self)@ == old(self)@.judged(now),
    {
        self.update_state(now);
    }

    /// The seconds without activity at time `now`.
    fn inactive_secs(&self, now: u64) -> (secs: u64)
        ensures
            secs == seconds_between(self@.last_activity, now),
    {
        now.saturating_sub(self.last_activity)
    }

    /// Applies the rule at time `now`.
    fn update_state(&mut self, now: u64)
        ensures
            final(self)@ == old(self)@.judged(now),
    {
        let elapsed_secs = self.inactive_secs(now);
        self.state = if self.usb_suspended || (elapsed_secs > IDLE_TIMEOUT_SECS * 2
            && !self.ble_connected) {
            PowerState::LowPower
        } else if elapsed_secs > IDLE_TIMEOUT_SECS {
            PowerState::Idle
        } else {
            PowerState::Active
        };
    }
}

/// With the same links and bus, more inactivity never gives a shallower
/// power state.
pub proof fn lemma_power_state_deepens(
    usb_suspended: bool,
    ble_connected: bool,
    shorter: u64,
    longer: u64,
)
    requires
        shorter <= longer,
    ensures
        power_state_for(usb_suspended, ble_connected, shorter).depth() <= power_state_for(
            usb_suspended,
            ble_connected,
            longer,
        ).depth(),
{
}

/// A suspended bus means low power, whatever else holds.
pub proof fn lemma_suspended_is_low_power(ble_connected: bool, inactive_secs: u64)
    ensures
        power_state_for(true, ble_connected, inactive_secs) == PowerState::LowPower,
{
}

} // verus!
