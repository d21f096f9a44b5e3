//! The particle data model: a water ball with a position and a velocity,
//! both in milli-units, and the well-formedness every pass preserves.

use vstd::prelude::*;

use crate::params::POS_LIMIT;
use crate::params::DEFAULT_VEL;
use crate::params::VIEW_MARGIN;
use crate::fixed::tdiv;

verus! {

/// A velocity in milli-units per second, one field per axis.
#[derive(Clone, Copy, PartialEq, Eq, Structural, Debug)]
pub struct Velocity2 {
    pub x: i64,
    pub y: i64,
}

impl Default for Velocity2 {
    /// A freshly spawned particle drifts at 1.0 units per second on each axis.
    fn default() -> (v: Velocity2)
        ensures
            v.x == DEFAULT_VEL,
            v.y == DEFAULT_VEL,
    {
        Velocity2 { x: DEFAULT_VEL, y: DEFAULT_VEL }
    }
}

/// A water ball: a point mass at `(x, y)` milli-units, moving at `velocity`.
/// Its identity is its index in the particle vector.
#[derive(Clone, Copy, PartialEq, Eq, Structural, Debug)]
pub struct WaterBall {
    pub x: i64,
    pub y: i64,
    pub velocity: Velocity2,
}

/// A particle is in range when both coordinates are within the saturation
/// bound. Velocities may hold any value of their type.
pub open spec fn ball_in_range(b: WaterBall) -> bool {
    -POS_LIMIT <= b.x <= POS_LIMIT && -POS_LIMIT <= b.y <= POS_LIMIT
}

/// Well-formedness of the particle set: every coordinate within bounds.
pub open spec fn balls_in_range(s: Seq<WaterBall>) -> bool {
    forall|i: int| 0 <= i < s.len() ==> ball_in_range(#[trigger] s[i])
}

/// Half-extents of the soft boundary, from the viewport size in
/// milli-pixels: half the size, minus the margin.
pub fn view_half_extents(width: i64, height: i64) -> (r: (i64, i64))
    requires
        0 <= width <= POS_LIMIT,
        0 <= height <= POS_LIMIT,
    ensures
        r.0 == tdiv(width as int, 2) - VIEW_MARGIN,
        r.1 == tdiv(height as int, 2) - VIEW_MARGIN,
{
    (width / 2 - VIEW_MARGIN, height / 2 - VIEW_MARGIN)
}

} // verus!
