//! Tuning constants of the simulation.
//!
//! World coordinates, velocities and times are fixed-point integers: one
//! world unit is `SCALE` milli-units, one second is `SCALE` milli-seconds.
//! Squared distances are therefore in milli-units squared, which multiplies
//! the unit-level thresholds by `SCALE * SCALE`.

use vstd::prelude::*;

verus! {

/// Milli-units per world unit (and milli-seconds per second).
pub const SCALE: i64 = 1000;

/// Per-axis velocity clamp after integration: 100.0 units per second.
pub const VEL_LIMIT: i64 = 100_000;

/// Uniform damping of 0.999 per tick, as a ratio.
pub const DAMP_NUM: i64 = 999;

/// Denominator of the damping ratio.
pub const DAMP_DEN: i64 = 1000;

/// Hard cutoff of pairwise repulsion: (300 units)^2, in milli-units squared.
pub const REPEL_RANGE_SQ: i64 = 90_000_000_000;

/// Strength of pairwise repulsion, in units (1000.0 in unit terms).
pub const REPEL_STRENGTH: i64 = 1000;

/// Numerator factor of a pairwise velocity delta: `REPEL_STRENGTH * SCALE`.
pub const REPEL_FACTOR: i64 = 1_000_000;

/// Radius of a single ship sample point's repulsion: (40 units)^2.
pub const SHIP_RANGE_SQ: i64 = 1_600_000_000;

/// Strength of ship repulsion, in units (100000.0 in unit terms).
pub const SHIP_STRENGTH: i64 = 100_000;

/// Numerator factor of a ship velocity delta: `SHIP_STRENGTH * SCALE`.
pub const SHIP_FACTOR: i64 = 100_000_000;

/// Despawn query radius: (20 units)^2, in milli-units squared.
pub const DESPAWN_RANGE_SQ: i64 = 400_000_000;

/// Margin kept between the viewport edge and the soft boundary: 20.0 units.
pub const VIEW_MARGIN: i64 = 20_000;

/// Coordinates saturate at this magnitude (a bound the integer width forces;
/// it lies far outside any viewport, at a billion units from the origin).
pub const POS_LIMIT: i64 = 1_000_000_000_000_000;

/// Largest supported frame time: 60 seconds, in milli-seconds.
pub const DT_LIMIT: i64 = 60_000;

/// Largest pointer coordinate the input mapping accepts: half the coordinate
/// bound, so a mapped click always lands within it.
pub const PTR_LIMIT: i64 = 500_000_000_000_000;

/// Squared distances below this are treated as this value before dividing,
/// so that coincident particles never divide by zero. One milli-unit
/// squared: the smallest positive squared distance the grid can hold.
pub const DIST_SQ_MIN: i64 = 1;

/// Initial velocity of a spawned particle on each axis: 1.0 units per second.
pub const DEFAULT_VEL: i64 = 1000;

/// Particles spawned at startup.
pub const WATER_BALL_COUNT: usize = 500;

/// Largest magnitude of one pairwise velocity delta:
/// `DT_LIMIT * 300_000 * REPEL_FACTOR / DIST_SQ_MIN` with the axis distance
/// capped by the cutoff radius (300 units).
pub const REPEL_TERM_MAX: i64 = 18_000_000_000_000_000;

/// Largest magnitude of one ship-point velocity delta: `DT_LIMIT * SHIP_FACTOR`.
pub const SHIP_TERM_MAX: i64 = 6_000_000_000_000;

/// Velocity magnitude the ship pass accepts without overflowing: the pass
/// adds at most `144 * SHIP_TERM_MAX` to an axis.
pub const VEL_CAP: i64 = 1_000_000_000_000_000;

/// Largest particle count the velocity pass accepts; keeps the summed
/// pairwise deltas inside the wide intermediate integers.
pub const COUNT_LIMIT: u64 = 1_000_000_000;

/// Number of ship sample points: an 8-by-18 grid.
pub const SHIP_GRID_LEN: i64 = 144;

/// Largest velocity magnitude any tick can leave behind: the per-axis clamp
/// plus the ship field's largest possible push,
/// `VEL_LIMIT + SHIP_GRID_LEN * SHIP_TERM_MAX`.
pub const TICK_VEL_LIMIT: i64 = 864_000_000_100_000;

/// Ship forward speed under keyboard steering, in units per second.
pub const SHIP_SPEED_FWD: i64 = 200;

/// Ship reverse speed under keyboard steering, in units per second.
pub const SHIP_SPEED_REV: i64 = 100;

} // verus!
