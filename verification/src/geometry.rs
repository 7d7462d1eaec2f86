//! Plane geometry helpers: fixed-point coordinate pairs, interval clamping
//! and the axis-aligned bounding-box overlap test.

use vstd::prelude::*;

verus! {

/// The coordinate magnitude up to which the geometry helpers are free of
/// overflow; every position the simulation produces stays far below it.
pub const COORD_LIMIT: i64 = 1_000_000_000_000_000_000;

/// A pair of fixed-point coordinates, used both for positions and for the
/// signed components of the ball's direction.
#[derive(Clone, Copy, PartialEq, Eq, Structural, Debug)]
pub struct Vec2 {
    pub x: i64,
    pub y: i64,
}

/// `v` pulled into the interval `[lo, hi]`.
pub open spec fn spec_clamp(v: int, lo: int, hi: int) -> int {
    if v < lo {
        lo
    } else if v > hi {
        hi
    } else {
        v
    }
}

/// Clamps `v` to the interval `[lo, hi]`.
pub fn clamp(v: i64, lo: i64, hi: i64) -> (r: i64)
    requires
        lo <= hi,
    ensures
        r == spec_clamp(v as int, lo as int, hi as int),
{
    if v < lo {
        lo
    } else if v > hi {
        hi
    } else {
        v
    }
}

/// Squared magnitude of a direction vector, in fixed-point steps.
pub open spec fn speed2(d: Vec2) -> int {
    d.x * d.x + d.y * d.y
}

/// Two numbers of equal magnitude have equal squares.
pub proof fn lemma_square_eq(a: int, b: int)
    requires
        a == b || a == -b,
    ensures
        a * a == b * b,
{
    assert(a * a == b * b) by (nonlinear_arith)
        requires
            a == b || a == -b,
    ;
}

/// Two centred intervals, given by centre and half-width, share an interior
/// point.  Touching edges do not count as overlap.
pub open spec fn interval_overlap(c1: int, h1: int, c2: int, h2: int) -> bool {
    c1 - h1 < c2 + h2 && c2 - h2 < c1 + h1
}

/// Two axis-aligned boxes, given by centre and half-extent, overlap on both
/// axes.
pub open spec fn spec_aabb_overlap(a_pos: Vec2, a_half: Vec2, b_pos: Vec2, b_half: Vec2) -> bool {
    &&& interval_overlap(a_pos.x as int, a_half.x as int, b_pos.x as int, b_half.x as int)
    &&& interval_overlap(a_pos.y as int, a_half.y as int, b_pos.y as int, b_half.y as int)
}

/// Axis-aligned bounding-box overlap test over box centres and half-extents.
pub fn aabb_overlap(a_pos: Vec2, a_half: Vec2, b_pos: Vec2, b_half: Vec2) -> (r: bool)
    requires
        -COORD_LIMIT <= a_pos.x <= COORD_LIMIT,
        -COORD_LIMIT <= a_pos.y <= COORD_LIMIT,
        -COORD_LIMIT <= b_pos.x <= COORD_LIMIT,
        -COORD_LIMIT <= b_pos.y <= COORD_LIMIT,
        0 <= a_half.x <= COORD_LIMIT,
        0 <= a_half.y <= COORD_LIMIT,
        0 <= b_half.x <= COORD_LIMIT,
        0 <= b_half.y <= COORD_LIMIT,
    ensures
        r == spec_aabb_overlap(a_pos, a_half, b_pos, b_half),
{
    a_pos.x - a_half.x < b_pos.x + b_half.x && b_pos.x - b_half.x < a_pos.x + a_half.x
        && a_pos.y - a_half.y < b_pos.y + b_half.y && b_pos.y - b_half.y < a_pos.y + a_half.y
}

} // verus!
