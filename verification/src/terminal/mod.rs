//! What the terminal has to offer before the interface can be drawn.

pub mod utils;

use vstd::prelude::*;
use crate::error::RestlessError;
use crate::text::{concat_str, decimal, format_decimal};

verus! {

/// How the terminal is set up.
#[derive(Debug, Clone)]
pub struct TerminalConfig {
    pub min_width: u16,
    pub min_height: u16,
    pub enable_mouse: bool,
    pub use_alternate_screen: bool,
}

impl Default for TerminalConfig {
    /// A terminal of at least 80 columns and 24 rows, with the mouse and
    /// the alternate screen in use.
    fn default() -> (r: Self)
        ensures
            r.min_width == 80,
            r.min_height == 24,
            r.enable_mouse,
            r.use_alternate_screen,
    {
        TerminalConfig {
            min_width: 80,
            min_height: 24,
            enable_mouse: true,
            use_alternate_screen: true,
        }
    }
}

/// The least width without a configuration.
pub const MIN_WIDTH: u16 = 80;

/// The least height without a configuration.
pub const MIN_HEIGHT: u16 = 24;

/// The message about a measure that is too small.
pub open spec fn too_small_message(what: Seq<char>, actual: u16, minimum: u16) -> Seq<char> {
    "Terminal "@ + what + " too small: "@ + decimal(actual as nat) + " (minimum: "@ + decimal(
        minimum as nat,
    ) + ")"@
}

/// What is wrong with a terminal size, in words: the width where it is
/// too small, else the height where it is.
pub open spec fn size_fault(width: u16, height: u16, min_width: u16, min_height: u16) -> Option<
    Seq<char>,
> {
    if width < min_width {
        Some(too_small_message("width"@, width, min_width))
    } else if height < min_height {
        Some(too_small_message("height"@, height, min_height))
    } else {
        None
    }
}

/// Writes the message about a measure that is too small.
pub fn write_too_small_message(what: &str, actual: u16, minimum: u16) -> (r: String)
    ensures
        r@ == too_small_message(what@, actual, minimum),
{
    let a = format_decimal(actual as u64);
    let m = format_decimal(minimum as u64);
    let mut r = concat_str("Terminal ", what);
    r.append(" too small: ");
    r.append(a.as_str());
    r.append(" (minimum: ");
    r.append(m.as_str());
    r.append(")");
    r
}

/// Looks for a fault in a terminal size.
pub fn find_size_fault(width: u16, height: u16, min_width: u16, min_height: u16) -> (r: Option<
    String,
>)
    ensures
        match size_fault(width, height, min_width, min_height) {
            Some(fault) => r matches Some(msg) && msg@ == fault,
            None => r is None,
        },
{
    if width < min_width {
        Some(write_too_small_message("width", width, min_width))
    } else if height < min_height {
        Some(write_too_small_message("height", height, min_height))
    } else {
        None
    }
}

/// Checks a terminal size against the least width and height.
pub fn validate_size(width: u16, height: u16, min_width: u16, min_height: u16) -> (r: Result<
    (),
    RestlessError,
>)
    ensures
        match size_fault(width, height, min_width, min_height) {
            Some(fault) => r matches Err(RestlessError::Terminal(msg)) && msg@ == fault,
            None => r is Ok,
        },
{
    match find_size_fault(width, height, min_width, min_height) {
        Some(msg) => Err(RestlessError::Terminal(msg)),
        None => Ok(()),
    }
}

impl TerminalConfig {
    /// Checks a terminal size against the configuration.
    pub fn validate_size(&self, width: u16, height: u16) -> (r: Result<(), RestlessError>)
        ensures
            match size_fault(width, height, self.min_width, self.min_height) {
                Some(fault) => r matches Err(RestlessError::Terminal(msg)) && msg@ == fault,
                None => r is Ok,
            },
    {
        validate_size(width, height, self.min_width, self.min_height)
    }
}

} // verus!
