//! Screen power policy.

use vstd::prelude::*;

verus! {

/// Whether the screen is on under the given policy: the power state must
/// allow it, and with automatic power-off enabled the idle time must be
/// below the timeout.
pub open spec fn screen_on(
    base_display_on: bool,
    auto_off_enabled: bool,
    idle_secs: u64,
    auto_off_timeout_secs: u64,
) -> bool {
    base_display_on && !(auto_off_enabled && idle_secs >= auto_off_timeout_secs)
}

/// Decide whether screen should be on based on base power state and inactivity policy.
pub fn screen_should_be_on(
    base_display_on: bool,
    auto_off_enabled: bool,
    idle_secs: u64,
    auto_off_timeout_secs: u64,
) -> (on: bool)
    ensures
        on == screen_on(base_display_on, auto_off_enabled, idle_secs, auto_off_timeout_secs),
{
    if !base_display_on {
        return false;
    }
    if auto_off_enabled && idle_secs >= auto_off_timeout_secs {
        return false;
    }
    true
}

} // verus!
