//! Selection cursor of the device list.

use vstd::prelude::*;

verus! {

/// Move selection cursor one item up; the first item stays selected.
pub fn select_prev(selected: usize) -> (next: usize)
    ensures
        next == if selected == 0 {
            0
        } else {
            selected - 1
        },
{
    selected.saturating_sub(1)
}

/// Move selection cursor one item down if another item exists.
pub fn select_next(selected: usize, item_count: usize) -> (next: usize)
    ensures
        next == if selected + 1 < item_count {
            selected + 1
        } else {
            selected as int
        },
{
    if selected < item_count && item_count - selected > 1 {
        selected + 1
    } else {
        selected
    }
}

} // verus!
