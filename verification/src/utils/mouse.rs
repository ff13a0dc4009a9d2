//! The mouse, reported in hardware pixels.
//!
//! A terminal reports the mouse by character cell unless it is asked for
//! more. In the mode that the control sequence of this file turns on, SGR
//! pixel mode (private mode 1016 of xterm), it reports the position in
//! pixels, which tells the upper half of a cell from the lower.

use vstd::prelude::*;

verus! {

/// The control sequence that turns SGR pixel mode on.
pub const ENABLE_SGR_PIXEL: &'static str = "\x1B[?1016h";

/// The command that turns SGR pixel mode on.
#[derive(Clone, Copy, Debug, PartialEq, Eq, Structural)]
pub struct EnableSgrPixel;

impl EnableSgrPixel {
    /// The control sequence to write to the terminal.
    pub fn ansi(&self) -> (sequence: &'static str)
        ensures
            sequence@ == ENABLE_SGR_PIXEL@,
    {
        ENABLE_SGR_PIXEL
    }
}

} // verus!
