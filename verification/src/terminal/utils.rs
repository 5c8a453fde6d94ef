//! Small questions about the terminal.

use vstd::prelude::*;

verus! {

/// Whether the terminal shows colors. Every terminal is taken to.
pub fn supports_color() -> (r: bool)
    ensures
        r,
{
    true
}

} // verus!
