//! Locations on the integer grid, distances and displacements.

use vstd::prelude::*;
use crate::direction::Direction;
use crate::root::{floor_sqrt, integer_sqrt, is_floor_sqrt, lemma_floor_sqrt_unique};
use crate::units::{toward_zero, FULL_TURN, HALF_TURN, QUARTER_TURN, THREE_QUARTER_TURN};

verus! {

/// A point of the plane. The horizontal coordinate grows to the right, the
/// vertical one downward; the unit of length is the caller's choice.
#[derive(Clone, Copy, Debug, PartialEq, Eq, Structural)]
pub struct Position {
    pub x: i32,
    pub y: i32,
}

impl View for Position {
    type V = (int, int);

    open spec fn view(&self) -> (int, int) {
        (self.x as int, self.y as int)
    }
}

/// The square of the Euclidean distance between two points.
pub open spec fn span_squared(p: (int, int), q: (int, int)) -> int {
    (p.0 - q.0) * (p.0 - q.0) + (p.1 - q.1) * (p.1 - q.1)
}

/// The Euclidean distance between two points, rounded down to a whole unit.
pub open spec fn span(p: (int, int), q: (int, int)) -> int {
    floor_sqrt(span_squared(p, q))
}

/// The quarter of the plane in which a target lies, seen from an origin.
///
/// A target straight to the right counts as bottom right, one straight below
/// as bottom left, one straight to the left or straight above as top left, and
/// so does the origin itself.
#[derive(Clone, Copy, Debug, PartialEq, Eq, Structural)]
pub enum Quadrant {
    TopRight,
    BottomRight,
    BottomLeft,
    TopLeft,
}

/// How the heading from an origin toward a target is obtained.
///
/// The heading is the angle at which `quadrant` begins plus an arc cosine.
/// In three quadrants the arc cosine is taken of the ratio `leg / reach`.
/// In the bottom left quadrant it is taken of `leg` alone and the result is
/// then divided by `reach`: a known defect, kept because callers observe it.
/// For a target at the origin `reach` is zero and the ratio is undefined.
#[derive(Clone, Copy, Debug, PartialEq, Eq, Structural)]
pub struct Bearing {
    /// The quadrant of the target.
    pub quadrant: Quadrant,
    /// The length of the axis-parallel leg that the quadrant's angle is
    /// measured against.
    pub leg: u32,
    /// The distance to the target, rounded down.
    pub reach: u64,
}

/// The angle at which a quadrant begins.
pub open spec fn quadrant_base(quadrant: Quadrant) -> int {
    match quadrant {
        Quadrant::TopRight => 0,
        Quadrant::BottomRight => QUARTER_TURN as int,
        Quadrant::BottomLeft => HALF_TURN as int,
        Quadrant::TopLeft => THREE_QUARTER_TURN as int,
    }
}

/// The quadrant in which `q` lies, seen from `p`.
pub open spec fn quadrant_toward(p: (int, int), q: (int, int)) -> Quadrant {
    if q.0 > p.0 {
        if q.1 < p.1 {
            Quadrant::TopRight
        } else {
            Quadrant::BottomRight
        }
    } else if q.1 > p.1 {
        Quadrant::BottomLeft
    } else {
        Quadrant::TopLeft
    }
}

/// The leg from `p` toward `q` that the angle inside the quadrant is measured
/// against: the vertical one in the top right and bottom left quadrants, the
/// horizontal one in the other two.
pub open spec fn leg_toward(p: (int, int), q: (int, int)) -> int {
    match quadrant_toward(p, q) {
        Quadrant::TopRight => p.1 - q.1,
        Quadrant::BottomRight => q.0 - p.0,
        Quadrant::BottomLeft => q.1 - p.1,
        Quadrant::TopLeft => p.0 - q.0,
    }
}

impl Quadrant {
    /// The angle at which the quadrant begins.
    pub fn base_angle(&self) -> (angle: i32)
        ensures
            angle == quadrant_base(*self),
    {
        match self {
            Quadrant::TopRight => 0,
            Quadrant::BottomRight => QUARTER_TURN,
            Quadrant::BottomLeft => HALF_TURN,
            Quadrant::TopLeft => THREE_QUARTER_TURN,
        }
    }

    /// Whether the angle inside the quadrant is the arc cosine of the ratio of
    /// leg to distance. In the bottom left quadrant it is not: there the arc
    /// cosine of the leg is divided by the distance.
    pub fn takes_ratio(&self) -> (ratio: bool)
        ensures
            ratio == (*self != Quadrant::BottomLeft),
    {
        match self {
            Quadrant::BottomLeft => false,
            _ => true,
        }
    }
}

/// The part `part / QUARTER_TURN` of the length `dist`, rounded toward zero.
pub open spec fn share(part: int, dist: int) -> int {
    toward_zero(part * dist, QUARTER_TURN as int)
}

/// The displacement of a move of length `dist` under the heading `angle`, as
/// the pair of its horizontal and vertical parts.
///
/// The circle is cut into four quarters, and inside each the length is split
/// between the two neighbouring cardinal directions in proportion to how far
/// into the quarter the angle sits. An angle of exactly zero, and any angle of
/// a full turn or more, displaces nothing. Negative angles continue the first
/// quarter's line.
pub open spec fn displacement(angle: int, dist: int) -> (int, int) {
    if angle == 0 || angle >= FULL_TURN {
        (0, 0)
    } else if angle < QUARTER_TURN {
        (share(angle, dist), -share(QUARTER_TURN - angle, dist))
    } else if angle < HALF_TURN {
        (share(HALF_TURN - angle, dist), share(angle - QUARTER_TURN, dist))
    } else if angle < THREE_QUARTER_TURN {
        (-share(angle - HALF_TURN, dist), share(THREE_QUARTER_TURN - angle, dist))
    } else {
        (-share(FULL_TURN - angle, dist), -share(angle - THREE_QUARTER_TURN, dist))
    }
}

/// The point that a move by `dist` under the heading `angle` reaches from `p`.
pub open spec fn extended(p: (int, int), angle: int, dist: int) -> (int, int) {
    (p.0 + displacement(angle, dist).0, p.1 + displacement(angle, dist).1)
}

/// Computes `share(part, dist)`.
fn scale(part: i64, dist: i32) -> (r: i64)
    requires
        -0x1_0000_0000 < part < 0x1_0000_0000,
    ensures
        r == share(part as int, dist as int),
        -0x4000_0000_0000_0000 <= r <= 0x4000_0000_0000_0000,
{
    assert(-0x1_0000_0000 * 0x8000_0000 < part * dist < 0x1_0000_0000 * 0x8000_0000)
        by (nonlinear_arith)
        requires
            -0x1_0000_0000 < part < 0x1_0000_0000,
            -0x8000_0000 <= dist < 0x8000_0000,
    ;
    (part * (dist as i64)) / (QUARTER_TURN as i64)
}

/// The displacement of a move of length `dist` under the heading `dir`, as the
/// pair of its horizontal and vertical parts.
pub fn stride(dir: Direction, dist: i32) -> (by: (i64, i64))
    ensures
        (by.0 as int, by.1 as int) == displacement(dir@, dist as int),
        -0x4000_0000_0000_0000 <= by.0 <= 0x4000_0000_0000_0000,
        -0x4000_0000_0000_0000 <= by.1 <= 0x4000_0000_0000_0000,
{
    let angle: i64 = dir.angle as i64;
    let quarter: i64 = QUARTER_TURN as i64;
    let half: i64 = HALF_TURN as i64;
    let three: i64 = THREE_QUARTER_TURN as i64;
    let full: i64 = FULL_TURN as i64;
    if angle == 0 || angle >= full {
        (0, 0)
    } else if angle < quarter {
        (scale(angle, dist), -scale(quarter - angle, dist))
    } else if angle < half {
        (scale(half - angle, dist), scale(angle - quarter, dist))
    } else if angle < three {
        (-scale(angle - half, dist), scale(three - angle, dist))
    } else {
        (-scale(full - angle, dist), -scale(angle - three, dist))
    }
}

impl Position {
    /// The point with the given coordinates.
    pub fn new(x: i32, y: i32) -> (p: Position)
        ensures
            p@ == (x as int, y as int),
    {
        Position { x, y }
    }

    /// The Euclidean distance to `point`, rounded down to a whole unit.
    pub fn distance(&self, point: Position) -> (d: u64)
        ensures
            d == span(self@, point@),
            is_floor_sqrt(d as int, span_squared(self@, point@)),
    {
        let a: i128 = self.x as i128 - point.x as i128;
        let b: i128 = self.y as i128 - point.y as i128;
        assert(0 <= a * a <= 0xffff_ffff * 0xffff_ffff) by (nonlinear_arith)
            requires
                -0xffff_ffff <= a <= 0xffff_ffff,
        ;
        assert(0 <= b * b <= 0xffff_ffff * 0xffff_ffff) by (nonlinear_arith)
            requires
                -0xffff_ffff <= b <= 0xffff_ffff,
        ;
        let sum: u128 = (a * a + b * b) as u128;
        integer_sqrt(sum)
    }

    /// The point reached from here by a move of length `dist` under the
    /// heading `dir`, see [`displacement`].
    ///
    /// The point must be representable; [`stride`] gives the displacement
    /// beforehand, and [`lemma_displacement_within_reach`] bounds it.
    pub fn extend_forward(&self, dir: Direction, dist: i32) -> (p: Position)
        requires
            i32::MIN <= extended(self@, dir@, dist as int).0 <= i32::MAX,
            i32::MIN <= extended(self@, dir@, dist as int).1 <= i32::MAX,
        ensures
            p@ == extended(self@, dir@, dist as int),
    {
        let by: (i64, i64) = stride(dir, dist);
        Position::new((self.x as i64 + by.0) as i32, (self.y as i64 + by.1) as i32)
    }

    /// How the heading from here toward `target` is obtained: the quadrant of
    /// the target, the leg to measure against and the distance, see
    /// [`Bearing`]. The leg is never longer than the distance.
    pub fn get_dir(&self, target: Position) -> (b: Bearing)
        ensures
            b.quadrant == quadrant_toward(self@, target@),
            b.leg == leg_toward(self@, target@),
            b.reach == span(self@, target@),
            b.leg <= b.reach,
    {
        let reach: u64 = self.distance(target);
        let dx: i64 = target.x as i64 - self.x as i64;
        let dy: i64 = target.y as i64 - self.y as i64;
        proof {
            lemma_leg_within_span(*self, target);
        }
        if dx > 0 {
            if dy < 0 {
                Bearing { quadrant: Quadrant::TopRight, leg: (-dy) as u32, reach }
            } else {
                Bearing { quadrant: Quadrant::BottomRight, leg: dx as u32, reach }
            }
        } else if dy > 0 {
            Bearing { quadrant: Quadrant::BottomLeft, leg: dy as u32, reach }
        } else {
            Bearing { quadrant: Quadrant::TopLeft, leg: (-dx) as u32, reach }
        }
    }
}

/// The leg toward a target is never longer than the rounded-down distance to
/// it.
pub proof fn lemma_leg_within_span(p: Position, q: Position)
    ensures
        0 <= leg_toward(p@, q@) <= span(p@, q@),
{
    let leg = leg_toward(p@, q@);
    let reach = span(p@, q@);
    let dx = p@.0 - q@.0;
    let dy = p@.1 - q@.1;
    assert(0 <= dx * dx && 0 <= dy * dy) by (nonlinear_arith);
    assert(leg * leg == dx * dx || leg * leg == dy * dy) by (nonlinear_arith)
        requires
            leg == dx || leg == -dx || leg == dy || leg == -dy,
    ;
    lemma_floor_sqrt_unique(reach, span_squared(p@, q@));
    if leg > reach {
        assert((reach + 1) * (reach + 1) <= leg * leg) by (nonlinear_arith)
            requires
                0 <= reach + 1 <= leg,
        ;
    }
}

/// A point is at distance zero from itself.
pub proof fn lemma_distance_to_self(p: Position)
    ensures
        span(p@, p@) == 0,
{
    assert(span_squared(p@, p@) == 0) by (nonlinear_arith);
    assert(is_floor_sqrt(0, 0)) by (nonlinear_arith);
    lemma_floor_sqrt_unique(0, 0);
}

/// The distance between two points does not depend on their order.
pub proof fn lemma_distance_symmetric(p: Position, q: Position)
    ensures
        span(p@, q@) == span(q@, p@),
{
    assert(span_squared(p@, q@) == span_squared(q@, p@)) by (nonlinear_arith);
}

/// The distance between two points is zero just when they are the same point.
pub proof fn lemma_distance_zero_iff_same(p: Position, q: Position)
    ensures
        span(p@, q@) == 0 <==> p == q,
{
    let dx = p@.0 - q@.0;
    let dy = p@.1 - q@.1;
    let sq = span_squared(p@, q@);
    assert(0 <= dx * dx && 0 <= dy * dy) by (nonlinear_arith);
    assert(dx != 0 ==> dx * dx >= 1) by (nonlinear_arith);
    assert(dy != 0 ==> dy * dy >= 1) by (nonlinear_arith);
    assert(dx == 0 ==> dx * dx == 0) by (nonlinear_arith);
    assert(dy == 0 ==> dy * dy == 0) by (nonlinear_arith);
    lemma_floor_sqrt_unique(0, sq);
    assert(is_floor_sqrt(0, sq) <==> sq == 0) by (nonlinear_arith)
        requires
            0 <= sq,
    ;
}

/// Under a normalized heading the two parts of the displacement are together
/// no longer than the move itself.
pub proof fn lemma_displacement_within_reach(dir: Direction, dist: i32)
    requires
        0 <= dir@ < FULL_TURN,
    ensures
        vstd::math::abs(displacement(dir@, dist as int).0) + vstd::math::abs(
            displacement(dir@, dist as int).1,
        ) <= vstd::math::abs(dist as int),
{
    let quarter = QUARTER_TURN as int;
    let length = vstd::math::abs(dist as int) as int;
    let part = dir@ % quarter;
    let rest = quarter - part;
    assert(vstd::math::abs(share(part, dist as int)) + vstd::math::abs(share(rest, dist as int))
        <= length) by {
        lemma_shares_within_whole(part, dist as int);
    }
}

/// A forward move under a normalized heading ends in the quadrant that the
/// heading points into, provided that the move displaces the point along both
/// axes: the heading then lies in the quarter turn that begins at the
/// quadrant's angle.
pub proof fn lemma_extension_lies_in_heading_quadrant(p: Position, dir: Direction, dist: i32)
    requires
        0 <= dir@ < FULL_TURN,
        dist > 0,
        displacement(dir@, dist as int).0 != 0,
        displacement(dir@, dist as int).1 != 0,
    ensures
        quadrant_base(quadrant_toward(p@, extended(p@, dir@, dist as int))) <= dir@
            < quadrant_base(quadrant_toward(p@, extended(p@, dir@, dist as int))) + QUARTER_TURN,
{
    let quarter = QUARTER_TURN as int;
    let part = dir@ % quarter;
    let rest = quarter - part;
    assert(part * dist >= 0 && rest * dist >= 0) by (nonlinear_arith)
        requires
            0 <= part,
            0 <= rest,
            dist > 0,
    ;
    assert(share(part, dist as int) >= 0 && share(rest, dist as int) >= 0);
}

/// The shares of two parts that make up a quarter turn are together no longer
/// than the whole length.
proof fn lemma_shares_within_whole(part: int, dist: int)
    requires
        0 <= part <= QUARTER_TURN,
    ensures
        vstd::math::abs(share(part, dist)) + vstd::math::abs(share(QUARTER_TURN - part, dist))
            <= vstd::math::abs(dist),
{
    let quarter = QUARTER_TURN as int;
    let length = vstd::math::abs(dist) as int;
    let rest = quarter - part;
    assert(part * length >= 0 && rest * length >= 0 && part * length + rest * length == quarter
        * length) by (nonlinear_arith)
        requires
            0 <= part <= quarter,
            rest == quarter - part,
            0 <= length,
    ;
    assert(part * dist == part * length || part * dist == -(part * length)) by (nonlinear_arith)
        requires
            length == dist || length == -dist,
    ;
    assert(rest * dist == rest * length || rest * dist == -(rest * length)) by (nonlinear_arith)
        requires
            length == dist || length == -dist,
    ;
    let u = part * length;
    let v = rest * length;
    assert(u / quarter + v / quarter <= length) by (nonlinear_arith)
        requires
            u >= 0,
            v >= 0,
            u + v == quarter * length,
            quarter == 90_000,
    ;
    assert(u / quarter >= 0 && v / quarter >= 0);
}

} // verus!
