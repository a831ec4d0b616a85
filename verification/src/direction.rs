//! Headings and the arithmetic of the circle.

use vstd::prelude::*;
use vstd::math::abs;
use crate::entropy::sample_between;
use crate::units::{DEGREES_PER_TURN, FULL_TURN, HALF_TURN, UNITS_PER_DEGREE};

verus! {

/// The axis of a mirror.
#[derive(Clone, Copy, Debug, PartialEq, Eq, Structural)]
pub enum Axis {
    /// A mirror that stands upright and swaps left and right.
    Vertical,
    /// A mirror that lies flat and swaps top and bottom.
    Horizontal,
}

/// A heading, as an angle in thousandths of a degree.
///
/// A heading is meant to lie in the half-open range from zero to a full turn,
/// see [`normalized`]. `new` stores any angle as it is; `add` and `subtract`
/// always produce a normalized heading; `reflect` does not renormalize.
#[derive(Clone, Copy, Debug, PartialEq, Eq, Structural)]
pub struct Direction {
    pub angle: i32,
}

impl View for Direction {
    type V = int;

    open spec fn view(&self) -> int {
        self.angle as int
    }
}

/// Whether the angle lies in the canonical range `[0, FULL_TURN)`.
pub open spec fn normalized(a: int) -> bool {
    0 <= a < FULL_TURN
}

/// The angle `a` turned clockwise by `amt` and wrapped into the canonical range.
pub open spec fn turned(a: int, amt: int) -> int {
    (a + amt) % (FULL_TURN as int)
}

/// The image of the angle `a` in a mirror along `axis`.
///
/// In an upright mirror an angle of exactly half a turn is its own image. No
/// image is renormalized: in a flat mirror zero maps to a full turn.
pub open spec fn mirrored(a: int, axis: Axis) -> int {
    match axis {
        Axis::Vertical => if a < HALF_TURN {
            HALF_TURN - a
        } else if a > HALF_TURN {
            HALF_TURN + FULL_TURN - a
        } else {
            a
        },
        Axis::Horizontal => FULL_TURN - a,
    }
}

/// The separation of two angles, folded every half turn.
pub open spec fn separation(a: int, b: int) -> int {
    (abs(a - b) as int) % (HALF_TURN as int)
}

/// Whether the angle `a` lies clockwise of the angle `b`.
///
/// Angles below half a turn form the right half of the circle, angles above it
/// the left half. Within one half the larger angle is the clockwise one; across
/// the halves the side toward which the shorter arc opens decides. An angle of
/// exactly half a turn is in neither half and is clockwise of nothing, nor is
/// anything clockwise of it.
pub open spec fn clockwise_of(a: int, b: int) -> bool {
    if a == HALF_TURN || b == HALF_TURN {
        false
    } else if (a > HALF_TURN) == (b > HALF_TURN) {
        a > b
    } else if a > HALF_TURN {
        a - b < HALF_TURN
    } else {
        b - a > HALF_TURN
    }
}

impl Direction {
    /// A heading with the given angle, stored as it is.
    pub fn new(angle: i32) -> (d: Direction)
        ensures
            d@ == angle,
    {
        Direction { angle }
    }

    /// The heading of a whole number of degrees.
    pub fn from_degrees(degrees: i16) -> (d: Direction)
        ensures
            d@ == degrees * UNITS_PER_DEGREE,
    {
        Direction { angle: degrees as i32 * UNITS_PER_DEGREE }
    }

    /// A heading of a whole number of degrees, drawn from the running thread's
    /// random generator. The heading is normalized; which of the 360 headings
    /// comes is up to the generator, and nothing is proved of their chances.
    pub fn new_random() -> (d: Direction)
        ensures
            normalized(d@),
            d@ % (UNITS_PER_DEGREE as int) == 0,
    {
        let mut rng = rand::thread_rng();
        let degrees: i32 = sample_between(&mut rng, 0, DEGREES_PER_TURN);
        Direction::from_degrees(degrees as i16)
    }

    /// Replaces the heading by its image in a mirror along `axis`, as a body
    /// bounces off a wall that runs along that axis.
    ///
    /// The image must be representable, as it is for every angle above
    /// `i32::MIN + FULL_TURN`.
    pub fn reflect(&mut self, axis: Axis)
        requires
            i32::MIN <= mirrored(old(self)@, axis) <= i32::MAX,
        ensures
            final(self)@ == mirrored(old(self)@, axis),
    {
        match axis {
            Axis::Vertical => {
                if self.angle < HALF_TURN {
                    self.angle = HALF_TURN - self.angle;
                } else if self.angle > HALF_TURN {
                    self.angle = HALF_TURN + FULL_TURN - self.angle;
                }
            },
            Axis::Horizontal => {
                self.angle = FULL_TURN - self.angle;
            },
        }
    }

    /// The separation of two headings, folded every half turn: the magnitude
    /// of the difference of the angles, reduced modulo half a turn.
    pub fn difference(angle1: Direction, angle2: Direction) -> (gap: i32)
        ensures
            gap == separation(angle1@, angle2@),
            0 <= gap < HALF_TURN,
    {
        let delta: i64 = angle1.angle as i64 - angle2.angle as i64;
        let size: i64 = if delta < 0 {
            -delta
        } else {
            delta
        };
        (size % (HALF_TURN as i64)) as i32
    }

    /// Turns the heading counter-clockwise by `amt` and normalizes it.
    pub fn subtract(&mut self, amt: i32)
        ensures
            final(self)@ == turned(old(self)@, -(amt as int)),
            normalized(final(self)@),
    {
        let rest: i64 = (self.angle as i64 - amt as i64) % (FULL_TURN as i64);
        if rest < 0 {
            self.angle = (rest + FULL_TURN as i64) as i32;
        } else {
            self.angle = rest as i32;
        }
    }

    /// Turns the heading clockwise by `amt` and normalizes it.
    pub fn add(&mut self, amt: i32)
        ensures
            final(self)@ == turned(old(self)@, amt as int),
            normalized(final(self)@),
    {
        let rest: i64 = (self.angle as i64 + amt as i64) % (FULL_TURN as i64);
        if rest < 0 {
            self.angle = (rest + FULL_TURN as i64) as i32;
        } else {
            self.angle = rest as i32;
        }
    }

    /// Whether this heading lies clockwise of `dir`.
    ///
    /// Two headings that are exactly opposite are clockwise of each other in
    /// neither order, and so are two equal headings.
    pub fn is_cw_of(&self, dir: Direction) -> (cw: bool)
        ensures
            cw == clockwise_of(self@, dir@),
    {
        let half: i64 = HALF_TURN as i64;
        let mine: i64 = self.angle as i64;
        let theirs: i64 = dir.angle as i64;
        if self.angle > HALF_TURN {
            if dir.angle > HALF_TURN {
                self.angle > dir.angle
            } else if dir.angle < HALF_TURN {
                mine - theirs < half
            } else {
                false
            }
        } else if self.angle < HALF_TURN {
            if dir.angle < HALF_TURN {
                self.angle > dir.angle
            } else if dir.angle > HALF_TURN {
                theirs - mine > half
            } else {
                false
            }
        } else {
            false
        }
    }
}

/// Turning a heading counter-clockwise by any amount and then clockwise by the
/// same amount gives the heading back, wrapped into the canonical range; a
/// normalized heading comes back unchanged.
pub proof fn lemma_subtract_then_add(a: Direction, amt: i32)
    ensures
        turned(turned(a@, -(amt as int)), amt as int) == turned(a@, 0),
        normalized(a@) ==> turned(turned(a@, -(amt as int)), amt as int) == a@,
{
    let full = FULL_TURN as int;
    let back = a@ - amt;
    assert(back == full * (back / full) + back % full) by {
        vstd::arithmetic::div_mod::lemma_fundamental_div_mod(back, full);
    }
    assert((full * (-(back / full)) + a@) % full == a@ % full) by {
        vstd::arithmetic::div_mod::lemma_mod_multiples_vanish(-(back / full), a@, full);
    }
    assert(back % full + amt == full * (-(back / full)) + a@) by (nonlinear_arith)
        requires
            back == full * (back / full) + back % full,
            back == a@ - amt,
    ;
}

/// Turning clockwise and then counter-clockwise by the same amount gives the
/// heading back as well.
pub proof fn lemma_add_then_subtract(a: Direction, amt: i32)
    ensures
        turned(turned(a@, amt as int), -(amt as int)) == turned(a@, 0),
        normalized(a@) ==> turned(turned(a@, amt as int), -(amt as int)) == a@,
{
    let full = FULL_TURN as int;
    let on = a@ + amt;
    assert(on == full * (on / full) + on % full) by {
        vstd::arithmetic::div_mod::lemma_fundamental_div_mod(on, full);
    }
    assert((full * (-(on / full)) + a@) % full == a@ % full) by {
        vstd::arithmetic::div_mod::lemma_mod_multiples_vanish(-(on / full), a@, full);
    }
    assert(on % full - amt == full * (-(on / full)) + a@) by (nonlinear_arith)
        requires
            on == full * (on / full) + on % full,
            on == a@ + amt,
    ;
}

/// The image of a normalized heading in an upright mirror is normalized, and
/// so is its image in a flat mirror unless the heading is zero, whose image is
/// a full turn.
pub proof fn lemma_reflect_keeps_range(a: Direction, axis: Axis)
    requires
        normalized(a@),
    ensures
        axis == Axis::Vertical || a@ != 0 ==> normalized(mirrored(a@, axis)),
        axis == Axis::Horizontal && a@ == 0 ==> mirrored(a@, axis) == FULL_TURN,
{
}

/// Mirroring twice along the same axis gives the heading back: always in a
/// flat mirror, and in an upright mirror for every normalized heading but
/// zero, whose image of half a turn is its own image.
pub proof fn lemma_reflect_twice(a: Direction, axis: Axis)
    requires
        axis == Axis::Vertical ==> 0 < a@ < FULL_TURN,
    ensures
        mirrored(mirrored(a@, axis), axis) == a@,
{
}

/// The separation of two headings does not depend on their order.
pub proof fn lemma_difference_symmetric(a: Direction, b: Direction)
    ensures
        separation(a@, b@) == separation(b@, a@),
{
}

/// The separation of two headings is never negative and always less than half
/// a turn.
pub proof fn lemma_difference_bounds(a: Direction, b: Direction)
    ensures
        0 <= separation(a@, b@) < HALF_TURN,
{
}

/// Of two headings that are neither equal nor exactly half a turn apart, and
/// neither of which is exactly half a turn, precisely one is clockwise of the
/// other.
pub proof fn lemma_clockwise_one_way(a: Direction, b: Direction)
    requires
        a@ != b@,
        a@ - b@ != HALF_TURN,
        b@ - a@ != HALF_TURN,
        a@ != HALF_TURN,
        b@ != HALF_TURN,
    ensures
        clockwise_of(a@, b@) != clockwise_of(b@, a@),
{
}

/// No two headings are clockwise of each other in both orders.
pub proof fn lemma_clockwise_never_both(a: Direction, b: Direction)
    ensures
        !(clockwise_of(a@, b@) && clockwise_of(b@, a@)),
{
}

/// No heading is clockwise of itself.
pub proof fn lemma_clockwise_irreflexive(a: Direction)
    ensures
        !clockwise_of(a@, a@),
{
}

/// A normalized heading and the heading half a turn away from it are clockwise
/// of each other in neither order.
pub proof fn lemma_opposites_not_clockwise(a: Direction)
    requires
        normalized(a@),
    ensures
        !clockwise_of(a@, turned(a@, HALF_TURN as int)),
        !clockwise_of(turned(a@, HALF_TURN as int), a@),
{
}

/// For normalized headings, neither of them exactly half a turn, the first is
/// clockwise of the second just when the clockwise arc from the second to the
/// first is shorter than half a turn and not empty.
pub proof fn lemma_clockwise_is_short_arc(a: Direction, b: Direction)
    requires
        normalized(a@),
        normalized(b@),
        a@ != HALF_TURN,
        b@ != HALF_TURN,
    ensures
        clockwise_of(a@, b@) <==> 0 < turned(a@, -b@) < HALF_TURN,
{
}

} // verus!
