//! A spinner for progress display: a cursor that cycles through ten
//! braille frames, one step per tick.

use vstd::prelude::*;

verus! {

/// The frame shown at a given cursor position.
pub open spec fn spec_spinner_frame(i: int) -> Seq<char> {
    if i == 0 {
        "⠋"@
    } else if i == 1 {
        "⠙"@
    } else if i == 2 {
        "⠹"@
    } else if i == 3 {
        "⠸"@
    } else if i == 4 {
        "⠼"@
    } else if i == 5 {
        "⠴"@
    } else if i == 6 {
        "⠦"@
    } else if i == 7 {
        "⠧"@
    } else if i == 8 {
        "⠇"@
    } else {
        "⠏"@
    }
}

fn spinner_frame(i: usize) -> (r: &'static str)
    requires
        i < 10,
    ensures
        r@ == spec_spinner_frame(i as int),
{
    match i {
        0 => "⠋",
        1 => "⠙",
        2 => "⠹",
        3 => "⠸",
        4 => "⠼",
        5 => "⠴",
        6 => "⠦",
        7 => "⠧",
        8 => "⠇",
        _ => "⠏",
    }
}

/// The spinner's cursor: each tick advances it one frame, wrapping
/// after the last.
#[derive(Debug, Clone, Copy, PartialEq, Eq, Structural)]
pub struct SpinnerState {
    pub index: usize,
}

impl SpinnerState {
    /// The cursor stays within the ten frames.
    pub open spec fn wf(&self) -> bool {
        self.index < 10
    }

    /// Advances one step and hands out the frame now under the
    /// cursor; the first tick moves off the initial frame.
    pub fn tick(&mut self) -> (r: &'static str)
        requires
            old(self).wf(),
        ensures
            final(self).wf(),
            final(self).index == (old(self).index + 1) % 10,
            r@ == spec_spinner_frame(final(self).index as int),
    {
        self.index = (self.index + 1) % 10;
        spinner_frame(self.index)
    }
}

/// A fresh spinner, its cursor on the first frame.
pub fn elegant_spinner() -> (r: SpinnerState)
    ensures
        r.index == 0,
        r.wf(),
{
    SpinnerState { index: 0 }
}

} // verus!
