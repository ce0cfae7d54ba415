use vstd::prelude::*;

verus! {

/// What the player asks of the ship this frame.
#[derive(Clone, Copy, Debug, PartialEq, Eq, Structural)]
pub struct ShipControls {
    pub rotate_left: bool,
    pub rotate_right: bool,
    pub thrust: bool,
}

impl Default for ShipControls {
    fn default() -> (r: Self)
        ensures
            r == (ShipControls { rotate_left: false, rotate_right: false, thrust: false }),
    {
        ShipControls { rotate_left: false, rotate_right: false, thrust: false }
    }
}

/// The direction the ship turns in: `1` clockwise, `-1` counter-clockwise,
/// `0` when neither or both turn controls are held.
pub open spec fn turn_of(c: ShipControls) -> int {
    if c.rotate_right && !c.rotate_left {
        1
    } else if c.rotate_left && !c.rotate_right {
        -1
    } else {
        0
    }
}

impl ShipControls {
    /// Which way the ship turns this frame; holding both turn controls
    /// cancels out.
    pub fn turn(&self) -> (r: i8)
        ensures
            r == turn_of(*self),
    {
        if self.rotate_right && !self.rotate_left {
            1
        } else if self.rotate_left && !self.rotate_right {
            -1
        } else {
            0
        }
    }
}

/// The turn is the right control minus the left one.
pub proof fn lemma_turn_is_right_minus_left(c: ShipControls)
    ensures
        turn_of(c) == (if c.rotate_right { 1int } else { 0int }) - (if c.rotate_left { 1int } else { 0int }),
{
}

} // verus!
