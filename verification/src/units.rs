//! The angular unit and the turns that the arithmetic is built on.

use vstd::prelude::*;

verus! {

/// An angle of one degree. Angles are counted in thousandths of a degree.
pub const UNITS_PER_DEGREE: i32 = 1_000;

/// A quarter of the circle, 90 degrees.
pub const QUARTER_TURN: i32 = 90_000;

/// Half of the circle, 180 degrees.
pub const HALF_TURN: i32 = 180_000;

/// Three quarters of the circle, 270 degrees.
pub const THREE_QUARTER_TURN: i32 = 270_000;

/// The whole circle, 360 degrees.
pub const FULL_TURN: i32 = 360_000;

/// The number of whole degrees in the circle.
pub const DEGREES_PER_TURN: i32 = 360;

/// The quotient of `n` by `d` rounded toward zero, for a positive `d`.
pub open spec fn toward_zero(n: int, d: int) -> int {
    if n >= 0 {
        n / d
    } else {
        -((-n) / d)
    }
}

} // verus!
