//! One frame's discrete input, as the host has gathered it.

use vstd::prelude::*;
use crate::grab::GrabEdges;

verus! {

/// How many pixel units of scroll make one line.
pub const PIXELS_PER_LINE: u32 = 16;

/// Unit in which the host reports this frame's scroll movement.
#[derive(Clone, Copy, Debug, PartialEq, Eq)]
pub enum ScrollUnit {
    /// Whole lines.
    Line,
    /// Pixels.
    Pixel,
}

impl ScrollUnit {
    /// Number of units that amount to one line of scroll.
    pub open spec fn per_line(self) -> int {
        match self {
            ScrollUnit::Line => 1,
            ScrollUnit::Pixel => PIXELS_PER_LINE as int,
        }
    }

    /// The divisor that turns a scroll amount in this unit into lines.
    pub fn units_per_line(&self) -> (n: u32)
        ensures
            n == self.per_line(),
    {
        match self {
            ScrollUnit::Line => 1,
            ScrollUnit::Pixel => PIXELS_PER_LINE,
        }
    }
}

/// Which of the movement keys are held down.
#[derive(Clone, Copy, Debug, PartialEq, Eq)]
pub struct HeldKeys {
    pub forward: bool,
    pub backward: bool,
    pub left: bool,
    pub right: bool,
    pub up: bool,
    pub down: bool,
    pub run: bool,
}

/// Everything discrete that one frame's update reads.
#[derive(Clone, Copy, Debug, PartialEq, Eq)]
pub struct FrameInput {
    /// Held state of the movement keys.
    pub keys: HeldKeys,
    /// Edge events of the toggle key and the grab button.
    pub edges: GrabEdges,
    /// Unit of this frame's scroll amount.
    pub scroll_unit: ScrollUnit,
    /// Whether the accumulated mouse motion differs from zero.
    pub mouse_moved: bool,
}

} // verus!
