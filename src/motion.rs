//! The star's steering: which direction and velocity a snapshot of the arrow keys asks for.

use vstd::prelude::*;

verus! {

/// How fast the star moves, in pixels per second along each held axis.
pub const SPEED: i32 = 200;

/// A snapshot of the four arrow keys.
#[derive(Clone, Copy, Debug, Default, PartialEq, Eq, Structural)]
pub struct Input {
    pub up: bool,
    pub down: bool,
    pub left: bool,
    pub right: bool,
}

/// An integer vector on screen axes: `x` grows to the right, `y` grows downwards.
#[derive(Clone, Copy, Debug, PartialEq, Eq, Structural)]
pub struct Step {
    pub x: i32,
    pub y: i32,
}

/// One axis of the direction: +1 for the positive key, -1 for the negative
/// one, and the two cancel when both are held.
pub open spec fn axis(negative: bool, positive: bool) -> int {
    (if positive { 1int } else { 0int }) - (if negative { 1int } else { 0int })
}

/// The unnormalised direction that a snapshot asks for.
pub open spec fn direction_of(input: Input) -> (int, int) {
    (axis(input.left, input.right), axis(input.up, input.down))
}

fn axis_step(negative: bool, positive: bool) -> (r: i32)
    ensures
        r == axis(negative, positive),
{
    let mut r: i32 = 0;
    if negative {
        r = r - 1;
    }
    if positive {
        r = r + 1;
    }
    r
}

impl Input {
    pub fn new(up: bool, down: bool, left: bool, right: bool) -> (r: Input)
        ensures
            r == (Input { up, down, left, right }),
    {
        Input { up, down, left, right }
    }

    /// The direction the held keys point to, one unit per held key and axis.
    pub fn direction(&self) -> (r: Step)
        ensures
            r.x == direction_of(*self).0,
            r.y == direction_of(*self).1,
    {
        Step { x: axis_step(self.left, self.right), y: axis_step(self.up, self.down) }
    }

    /// The star's velocity for this snapshot: the direction scaled by `SPEED`.
    /// It is computed afresh from the keys, never accumulated.
    pub fn velocity(&self) -> (r: Step)
        ensures
            r.x == SPEED * direction_of(*self).0,
            r.y == SPEED * direction_of(*self).1,
    {
        let d = self.direction();
        Step { x: SPEED * d.x, y: SPEED * d.y }
    }
}

/// Keys that oppose each other cancel on their axis, a lone key moves one unit
/// along its axis, and with no key held the direction is zero. In particular
/// all four keys held give the zero direction as well.
pub proof fn lemma_direction_laws(input: Input)
    ensures
        input.up == input.down ==> direction_of(input).1 == 0,
        input.left == input.right ==> direction_of(input).0 == 0,
        input.up && !input.down ==> direction_of(input).1 == -1,
        input.down && !input.up ==> direction_of(input).1 == 1,
        input.left && !input.right ==> direction_of(input).0 == -1,
        input.right && !input.left ==> direction_of(input).0 == 1,
        !input.up && !input.down && !input.left && !input.right ==> direction_of(input) == (
        0int,
        0int,
        ),
        -1 <= direction_of(input).0 <= 1 && -1 <= direction_of(input).1 <= 1,
{
}

} // verus!
