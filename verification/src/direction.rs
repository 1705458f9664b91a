//! Directional input along the camera's own axes.

use vstd::prelude::*;
use crate::input::HeldKeys;

verus! {

/// What a pair of opposed keys contributes to its axis: each held key adds
/// one step in its own direction, so both together cancel.
pub open spec fn axis(positive: bool, negative: bool) -> int {
    (if positive { 1int } else { 0int }) - (if negative { 1int } else { 0int })
}

/// The pull of the held keys as `(x, y, z)`: x to the right, y up, z forward.
pub open spec fn pull(keys: HeldKeys) -> (int, int, int) {
    (axis(keys.right, keys.left), axis(keys.up, keys.down), axis(keys.forward, keys.backward))
}

/// Directional input in the camera's local axes, before normalisation.
#[derive(Clone, Copy, Debug, PartialEq, Eq)]
pub struct Direction {
    /// Steps to the right.
    pub x: i8,
    /// Steps upwards.
    pub y: i8,
    /// Steps forward.
    pub z: i8,
}

impl View for Direction {
    type V = (int, int, int);

    open spec fn view(&self) -> (int, int, int) {
        (self.x as int, self.y as int, self.z as int)
    }
}

impl Direction {
    /// Every component is a single step or none.
    pub open spec fn wf(self) -> bool {
        &&& -1 <= self.x <= 1
        &&& -1 <= self.y <= 1
        &&& -1 <= self.z <= 1
    }

    /// No pull along any axis.
    pub open spec fn is_zero(self) -> bool {
        self@ == (0int, 0int, 0int)
    }

    /// The directional input that the held keys amount to.
    pub open spec fn of(keys: HeldKeys) -> Direction {
        Direction {
            x: axis(keys.right, keys.left) as i8,
            y: axis(keys.up, keys.down) as i8,
            z: axis(keys.forward, keys.backward) as i8,
        }
    }

    /// Builds the directional input from the held keys.
    pub fn from_keys(keys: &HeldKeys) -> (d: Direction)
        ensures
            d == Direction::of(*keys),
            d@ == pull(*keys),
            d.wf(),
    {
        let mut d = Direction { x: 0, y: 0, z: 0 };
        if keys.forward {
            d.z = d.z + 1;
        }
        if keys.backward {
            d.z = d.z - 1;
        }
        if keys.right {
            d.x = d.x + 1;
        }
        if keys.left {
            d.x = d.x - 1;
        }
        if keys.up {
            d.y = d.y + 1;
        }
        if keys.down {
            d.y = d.y - 1;
        }
        d
    }

    /// Whether there is no pull along any axis.
    pub fn is_still(&self) -> (still: bool)
        ensures
            still == self.is_zero(),
    {
        self.x == 0 && self.y == 0 && self.z == 0
    }
}

/// The pull is zero exactly when on every axis both keys are held or
/// neither is.
pub proof fn lemma_pull_zero_iff_balanced(keys: HeldKeys)
    ensures
        pull(keys) == (0int, 0int, 0int) <==> (keys.right == keys.left && keys.up == keys.down
            && keys.forward == keys.backward),
{
}

} // verus!
