//! What the screens show.
//!
//! The display is 128x64 pixels with a 6x10 font. This file decides the
//! texts and where they go; drawing them is the caller's part.

use vstd::prelude::*;

verus! {

/// Number of devices that fit on the device list screen.
pub const LIST_ROWS: usize = 4;

/// The title of the Home screen: the product's name, or "Sleeping" while
/// the power manager has blanked the display.
pub fn home_title(display_on: bool) -> (title: &'static str)
    ensures
        title@ == if display_on {
            "bt2usb"@
        } else {
            "Sleeping"@
        },
{
    if display_on {
        "bt2usb"
    } else {
        "Sleeping"
    }
}

/// The status line of the Home screen.
pub fn home_status(connected: bool) -> (status: &'static str)
    ensures
        status@ == if connected {
            "Connected"@
        } else {
            "Idle"@
        },
{
    if connected {
        "Connected"
    } else {
        "Idle"
    }
}

/// The third line of the Home screen: the name of the connected device if
/// there is one to show, else the hint how to scan.
pub fn home_detail<'a>(connected: bool, device_name: &'a str) -> (detail: &'a str)
    ensures
        detail@ == if connected && device_name@.len() > 0 {
            device_name@
        } else {
            "Press SELECT to scan"@
        },
{
    if connected && !device_name.is_empty() {
        device_name
    } else {
        "Press SELECT to scan"
    }
}

/// The moving dots behind "Scanning": none, one, two or three, by the
/// count of animation steps.
pub fn scanning_dots(dots: u8) -> (text: &'static str)
    ensures
        text@ == if dots % 4 == 0 {
            ""@
        } else if dots % 4 == 1 {
            "."@
        } else if dots % 4 == 2 {
            ".."@
        } else {
            "..."@
        },
{
    match dots % 4 {
        0 => "",
        1 => ".",
        2 => "..",
        _ => "...",
    }
}

/// The marker in front of a row of the device list: ">" for the selected
/// row, a blank for the others.
pub fn row_marker(row: usize, selected: usize) -> (marker: &'static str)
    ensures
        marker@ == if row == selected {
            ">"@
        } else {
            " "@
        },
{
    if row == selected {
        ">"
    } else {
        " "
    }
}

/// The vertical position of a row of the device list: 24 for the first
/// row and 10 more for each further one.
pub fn row_y(row: usize) -> (y: i32)
    requires
        24 + 10 * row <= i32::MAX,
    ensures
        y == 24 + 10 * row,
{
    24 + 10 * (row as i32)
}

} // verus!
