//! The kinematic state of a moving body.

use vstd::prelude::*;
use crate::direction::Direction;
use crate::position::Position;

verus! {

/// Where a body is, where it is heading and how fast: a snapshot that is read
/// and replaced as a whole, never changed in place.
#[derive(Clone, Copy, Debug, PartialEq, Eq, Structural)]
pub struct MotionVector {
    pos: Position,
    dir: Direction,
    rate: i32,
}

/// What a motion vector holds, over the models of its parts.
pub struct Motion {
    /// The coordinates of the body.
    pub pos: (int, int),
    /// The angle of its heading.
    pub dir: int,
    /// Its speed.
    pub rate: int,
}

impl View for MotionVector {
    type V = Motion;

    closed spec fn view(&self) -> Motion {
        Motion { pos: self.pos@, dir: self.dir@, rate: self.rate as int }
    }
}

impl MotionVector {
    /// The snapshot of a body at `pos` that moves under the heading `dir` at
    /// the speed `rate`. The speed is stored as it is, whatever its sign.
    pub fn new(pos: Position, dir: Direction, rate: i32) -> (m: MotionVector)
        ensures
            m@ == (Motion { pos: pos@, dir: dir@, rate: rate as int }),
    {
        MotionVector { pos, dir, rate }
    }

    /// The position of the body.
    pub fn get_position(&self) -> (pos: Position)
        ensures
            pos@ == self@.pos,
    {
        self.pos
    }

    /// The heading of the body.
    pub fn get_direction(&self) -> (dir: Direction)
        ensures
            dir@ == self@.dir,
    {
        self.dir
    }

    /// The speed of the body.
    pub fn get_rate(&self) -> (rate: i32)
        ensures
            rate == self@.rate,
    {
        self.rate
    }
}

} // verus!
