//! The sizes that the layout works with.

use vstd::prelude::*;
use crate::terminal::{find_size_fault, size_fault};
use crate::ui::{fixed_popup, Rect};

verus! {

/// The measures of the layout.
#[derive(Debug, Clone)]
pub struct LayoutConfig {
    pub min_width: u16,
    pub min_height: u16,
    pub tabs_height: u16,
    pub url_height: u16,
    pub status_height: u16,
    pub method_width: u16,
}

impl Default for LayoutConfig {
    /// A screen of at least 80 columns and 24 rows; three rows each for
    /// the tabs, the URL and the status; twelve columns for the method.
    fn default() -> (r: Self)
        ensures
            r.min_width == 80,
            r.min_height == 24,
            r.tabs_height == 3,
            r.url_height == 3,
            r.status_height == 3,
            r.method_width == 12,
    {
        LayoutConfig {
            min_width: 80,
            min_height: 24,
            tabs_height: 3,
            url_height: 3,
            status_height: 3,
            method_width: 12,
        }
    }
}

/// How many verbs the method list shows.
pub const METHOD_COUNT: u16 = 4;

/// The least heights of the values section and of the response section on
/// a screen of `height` rows.
pub open spec fn section_minimums(height: u16) -> (u16, u16) {
    if height >= 30 {
        (10, 10)
    } else if height >= 24 {
        (8, 8)
    } else {
        (5, 5)
    }
}

/// Checks that the screen is large enough for the layout.
pub fn validate_terminal_size(area: Rect, config: &LayoutConfig) -> (r: Result<(), String>)
    ensures
        match size_fault(area.width, area.height, config.min_width, config.min_height) {
            Some(fault) => r matches Err(msg) && msg@ == fault,
            None => r is Ok,
        },
{
    match find_size_fault(area.width, area.height, config.min_width, config.min_height) {
        Some(msg) => Err(msg),
        None => Ok(()),
    }
}

/// A popup of a fixed size in the middle of the screen.
pub fn create_fixed_popup_layout(area: Rect, width: u16, height: u16) -> (r: Rect)
    ensures
        r == fixed_popup(area, width, height),
{
    let room_x: u16 = if area.width >= 2 {
        area.width - 2
    } else {
        0
    };
    let room_y: u16 = if area.height >= 2 {
        area.height - 2
    } else {
        0
    };
    let popup_width: u16 = if width <= room_x {
        width
    } else {
        room_x
    };
    let popup_height: u16 = if height <= room_y {
        height
    } else {
        room_y
    };
    Rect {
        x: (area.width - popup_width) / 2,
        y: (area.height - popup_height) / 2,
        width: popup_width,
        height: popup_height,
    }
}

/// The area of the method list: below the method selector, as wide as it,
/// with a row for each verb and two for the border.
pub fn create_method_dropdown_layout(method_area: Rect) -> (r: Rect)
    requires
        method_area.y + method_area.height <= u16::MAX,
    ensures
        r == (Rect {
            x: method_area.x,
            y: (method_area.y + method_area.height) as u16,
            width: method_area.width,
            height: (METHOD_COUNT + 2) as u16,
        }),
{
    Rect {
        x: method_area.x,
        y: method_area.y + method_area.height,
        width: method_area.width,
        height: METHOD_COUNT + 2,
    }
}

/// The least heights of the values section and of the response section on
/// a screen of `height` rows.
pub fn responsive_minimums(height: u16) -> (r: (u16, u16))
    ensures
        r == section_minimums(height),
{
    if height >= 30 {
        (10, 10)
    } else if height >= 24 {
        (8, 8)
    } else {
        (5, 5)
    }
}

} // verus!
