//! Cursor state of the host's windows.

use vstd::prelude::*;

verus! {

/// How a window holds on to the cursor.
#[derive(Clone, Copy, Debug, PartialEq, Eq)]
pub enum CursorGrab {
    /// The cursor may leave the window.
    Free,
    /// The cursor is kept inside the window.
    Confined,
    /// The cursor is fixed in place.
    Locked,
}

/// What an update reads and writes of one window.
#[derive(Clone, Copy, Debug, PartialEq, Eq)]
pub struct WindowCursor {
    /// Whether the window has input focus. Never written.
    pub focused: bool,
    /// The window's grab mode.
    pub grab: CursorGrab,
    /// Whether the cursor is shown over the window.
    pub visible: bool,
    /// Set when a change of capture wrote `grab` and `visible`, also where it
    /// wrote what stood there before. The host writes exactly these windows
    /// back.
    pub written: bool,
}

impl WindowCursor {
    /// The window after a change of capture. Capturing locks and hides the
    /// cursor of a focused window and leaves an unfocused one alone;
    /// releasing frees and shows the cursor of every window.
    pub open spec fn with_capture(self, capture: bool) -> WindowCursor {
        if !capture {
            WindowCursor {
                focused: self.focused,
                grab: CursorGrab::Free,
                visible: true,
                written: true,
            }
        } else if self.focused {
            WindowCursor { focused: true, grab: CursorGrab::Locked, visible: false, written: true }
        } else {
            self
        }
    }
}

/// All windows after a change of capture, each in its place.
pub open spec fn all_with_capture(windows: Seq<WindowCursor>, capture: bool) -> Seq<WindowCursor> {
    Seq::new(windows.len(), |i: int| windows[i].with_capture(capture))
}

/// Carries a change of capture out on every window.
pub fn apply_capture(windows: &mut Vec<WindowCursor>, capture: bool)
    ensures
        final(windows)@ == all_with_capture(old(windows)@, capture),
{
    let n = windows.len();
    let mut i: usize = 0;
    while i < n
        invariant
            i <= n,
            windows@.len() == n,
            n == old(windows)@.len(),
            forall|j: int| 0 <= j < i ==> windows@[j] == old(windows)@[j].with_capture(capture),
            forall|j: int| i <= j < n ==> windows@[j] == old(windows)@[j],
        decreases n - i,
    {
        if capture {
            if windows[i].focused {
                windows[i].grab = CursorGrab::Locked;
                windows[i].visible = false;
                windows[i].written = true;
            }
        } else {
            windows[i].grab = CursorGrab::Free;
            windows[i].visible = true;
            windows[i].written = true;
        }
        i = i + 1;
    }
}

/// A change of capture never touches a window's focus, keeps the number and
/// order of the windows, and writes a window exactly if the capture is
/// released or the window is focused.
pub proof fn lemma_capture_writes_focused_or_all(windows: Seq<WindowCursor>, capture: bool, i: int)
    requires
        0 <= i < windows.len(),
    ensures
        all_with_capture(windows, capture).len() == windows.len(),
        all_with_capture(windows, capture)[i].focused == windows[i].focused,
        !capture || windows[i].focused ==> all_with_capture(windows, capture)[i].written,
        capture && !windows[i].focused ==> all_with_capture(windows, capture)[i] == windows[i],
{
}

} // verus!
