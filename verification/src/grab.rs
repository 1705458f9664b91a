//! The two latches that decide whether the cursor is captured.

use vstd::prelude::*;

verus! {

/// Edge events of one frame that bear on cursor capture.
#[derive(Clone, Copy, Debug, PartialEq, Eq)]
pub struct GrabEdges {
    /// The toggle key went down this frame.
    pub toggle_pressed: bool,
    /// The grab button went down this frame.
    pub button_pressed: bool,
    /// The grab button came up this frame.
    pub button_released: bool,
}

impl GrabEdges {
    /// Whether any of the three edges fired.
    pub open spec fn any(self) -> bool {
        self.toggle_pressed || self.button_pressed || self.button_released
    }

    /// A frame without edge events.
    pub open spec fn quiet() -> GrabEdges {
        GrabEdges { toggle_pressed: false, button_pressed: false, button_released: false }
    }
}

/// Cursor-capture state that outlives a frame.
#[derive(Clone, Copy, Debug, PartialEq, Eq)]
pub struct GrabLatches {
    /// Flipped by every press of the toggle key.
    pub toggle: bool,
    /// True while the grab button is held.
    pub button: bool,
}

impl GrabLatches {
    /// The latches after a frame with edges `e`: a toggle press flips
    /// `toggle`; a button press sets `button` and a release clears it, the
    /// release winning when both fall into one frame.
    pub open spec fn after(self, e: GrabEdges) -> GrabLatches {
        GrabLatches {
            toggle: self.toggle != e.toggle_pressed,
            button: !e.button_released && (e.button_pressed || self.button),
        }
    }

    /// The cursor is captured while either latch is set.
    pub open spec fn engaged(self) -> bool {
        self.toggle || self.button
    }

    /// Applies the edges of one frame and reports whether any of them fired.
    pub fn apply(&mut self, e: &GrabEdges) -> (changed: bool)
        ensures
            *final(self) == old(self).after(*e),
            changed == e.any(),
    {
        let mut changed = false;
        if e.toggle_pressed {
            self.toggle = !self.toggle;
            changed = true;
        }
        if e.button_pressed {
            self.button = true;
            changed = true;
        }
        if e.button_released {
            self.button = false;
            changed = true;
        }
        changed
    }

    /// Whether the cursor is captured.
    pub fn is_engaged(&self) -> (grab: bool)
        ensures
            grab == self.engaged(),
    {
        self.toggle || self.button
    }
}

/// A frame without edge events leaves both latches as they were.
pub proof fn lemma_quiet_frame_keeps_latches(latches: GrabLatches)
    ensures
        latches.after(GrabEdges::quiet()) == latches,
{
}

/// Two presses of the toggle key bring the toggle latch back to where it
/// was, whatever the grab button did in those two frames.
pub proof fn lemma_toggle_twice_restores(latches: GrabLatches, first: GrabEdges, second: GrabEdges)
    requires
        first.toggle_pressed,
        second.toggle_pressed,
    ensures
        latches.after(first).after(second).toggle == latches.toggle,
{
}

/// A press of the grab button and then its release leave the button latch
/// clear, whatever the toggle latch holds; the cursor is then captured
/// exactly if the toggle latch is set.
pub proof fn lemma_press_then_release_clears_button(
    latches: GrabLatches,
    press: GrabEdges,
    release: GrabEdges,
)
    requires
        press.button_pressed,
        release.button_released,
    ensures
        !latches.after(press).after(release).button,
        latches.after(press).after(release).engaged() == latches.after(press).after(release).toggle,
{
}

} // verus!
