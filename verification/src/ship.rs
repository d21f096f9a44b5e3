//! The ship: a single steerable pose that projects a grid-shaped repulsion
//! field onto nearby particles, approximating the hull's silhouette.
//!
//! The grid has 8 steps along the forward axis and 18 along the sideways
//! axis, 10 units apart, each step offset from the ship's centre by the
//! forward-axis components scaled by the step indices. Every sample point
//! repels every particle within 40 units of it, and several points near one
//! particle accumulate — the denser hull region pushes back harder.

use vstd::prelude::*;

use crate::fixed::tdiv;
use crate::fixed::div_trunc;
use crate::fixed::lemma_tdiv_abs_bound;
use crate::fixed::lemma_tdiv_scale_bound;
use crate::params::SCALE;
use crate::params::POS_LIMIT;
use crate::params::DT_LIMIT;
use crate::params::DIST_SQ_MIN;
use crate::params::SHIP_RANGE_SQ;
use crate::params::SHIP_FACTOR;
use crate::params::SHIP_TERM_MAX;
use crate::params::SHIP_GRID_LEN;
use crate::params::SHIP_SPEED_FWD;
use crate::params::SHIP_SPEED_REV;
use crate::params::VEL_CAP;
use crate::water::WaterBall;
use crate::water::Velocity2;
use crate::water::ball_in_range;
use crate::water::balls_in_range;
use crate::forces::safe_dist_sq;
use vstd::pervasive::VecAdditionalExecFns;

verus! {

/// The ship's pose: centre position in milli-units and the forward axis as
/// a vector in milli-units (a unit vector when the host derives it from the
/// ship's orientation, so each component lies within `SCALE`).
#[derive(Clone, Copy, PartialEq, Eq, Structural, Debug)]
pub struct Ship {
    pub x: i64,
    pub y: i64,
    pub fx: i64,
    pub fy: i64,
}

/// A ship pose is in range when its centre is within the coordinate bound
/// and its forward axis components are within one world unit.
pub open spec fn ship_in_range(s: Ship) -> bool {
    &&& -POS_LIMIT <= s.x <= POS_LIMIT
    &&& -POS_LIMIT <= s.y <= POS_LIMIT
    &&& -SCALE <= s.fx <= SCALE
    &&& -SCALE <= s.fy <= SCALE
}

/// Forward-axis step index of sample point `k`: 8 steps spanning -4..4.
pub open spec fn grid_xi(k: int) -> int {
    -4 + k / 18
}

/// Sideways step index of sample point `k`: 18 steps spanning -9..9.
pub open spec fn grid_yi(k: int) -> int {
    -9 + k % 18
}

/// The x coordinate of sample point `k`, in milli-units: the centre offset
/// by the forward-axis components scaled by the step indices, 10 units per
/// step.
pub open spec fn ship_point_x(s: Ship, k: int) -> int {
    s.x + 10 * (s.fy * grid_xi(k) + s.fx * grid_yi(k))
}

/// The y coordinate of sample point `k`, in milli-units.
pub open spec fn ship_point_y(s: Ship, k: int) -> int {
    s.y + 10 * (s.fx * grid_xi(k) + s.fy * grid_yi(k))
}

/// The x velocity delta that sample point `k` gives particle `p`:
/// `dt * d * K / d2` within 40 units of the point, nothing at or beyond.
pub open spec fn ship_delta_x(p: WaterBall, s: Ship, k: int, dt: int) -> int {
    let dx = p.x - ship_point_x(s, k);
    let dy = p.y - ship_point_y(s, k);
    let d2 = dx * dx + dy * dy;
    if d2 < SHIP_RANGE_SQ {
        tdiv(dt * dx * SHIP_FACTOR, safe_dist_sq(d2))
    } else {
        0
    }
}

/// The y velocity delta that sample point `k` gives particle `p`.
pub open spec fn ship_delta_y(p: WaterBall, s: Ship, k: int, dt: int) -> int {
    let dx = p.x - ship_point_x(s, k);
    let dy = p.y - ship_point_y(s, k);
    let d2 = dx * dx + dy * dy;
    if d2 < SHIP_RANGE_SQ {
        tdiv(dt * dy * SHIP_FACTOR, safe_dist_sq(d2))
    } else {
        0
    }
}

/// Net x velocity delta on `p` from the sample points below index `m`.
pub open spec fn ship_sum_x(p: WaterBall, s: Ship, dt: int, m: int) -> int
    decreases m,
{
    if m <= 0 {
        0
    } else {
        ship_sum_x(p, s, dt, m - 1) + ship_delta_x(p, s, m - 1, dt)
    }
}

/// Net y velocity delta on `p` from the sample points below index `m`.
pub open spec fn ship_sum_y(p: WaterBall, s: Ship, dt: int, m: int) -> int
    decreases m,
{
    if m <= 0 {
        0
    } else {
        ship_sum_y(p, s, dt, m - 1) + ship_delta_y(p, s, m - 1, dt)
    }
}

/// Within a point's radius the axis distance is below the squared distance,
/// so one point's delta never exceeds `dt * SHIP_FACTOR`.
pub proof fn lemma_ship_delta_bound(p: WaterBall, s: Ship, k: int, dt: int)
    requires
        0 <= dt <= DT_LIMIT,
    ensures
        -SHIP_TERM_MAX <= ship_delta_x(p, s, k, dt) <= SHIP_TERM_MAX,
        -SHIP_TERM_MAX <= ship_delta_y(p, s, k, dt) <= SHIP_TERM_MAX,
{
    let dx = p.x - ship_point_x(s, k);
    let dy = p.y - ship_point_y(s, k);
    let d2 = dx * dx + dy * dy;
    assert(dx * dx >= 0 && dy * dy >= 0) by (nonlinear_arith);
    if d2 < SHIP_RANGE_SQ {
        let den = safe_dist_sq(d2);
        assert(-(den * (dt * 100_000_000)) <= dt * dx * 100_000_000 <= den * (dt * 100_000_000)
            && -(den * (dt * 100_000_000)) <= dt * dy * 100_000_000 <= den * (dt * 100_000_000))
            by (nonlinear_arith)
            requires
                0 <= dt,
                dx * dx >= 0,
                dy * dy >= 0,
                d2 == dx * dx + dy * dy,
                den == (if d2 < 1 { 1int } else { d2 }),
        ;
        lemma_tdiv_scale_bound(dt * dx * SHIP_FACTOR, den, dt * 100_000_000);
        lemma_tdiv_scale_bound(dt * dy * SHIP_FACTOR, den, dt * 100_000_000);
        assert(dt * 100_000_000 <= SHIP_TERM_MAX) by (nonlinear_arith)
            requires
                0 <= dt <= 60_000,
                SHIP_TERM_MAX == 6_000_000_000_000,
        ;
    }
}

/// The summed point deltas grow at most linearly in the point count.
pub proof fn lemma_ship_sum_bound(p: WaterBall, s: Ship, dt: int, m: int)
    requires
        0 <= dt <= DT_LIMIT,
        0 <= m <= SHIP_GRID_LEN,
    ensures
        -(m * SHIP_TERM_MAX) <= ship_sum_x(p, s, dt, m) <= m * SHIP_TERM_MAX,
        -(m * SHIP_TERM_MAX) <= ship_sum_y(p, s, dt, m) <= m * SHIP_TERM_MAX,
    decreases m,
{
    if m > 0 {
        lemma_ship_sum_bound(p, s, dt, m - 1);
        lemma_ship_delta_bound(p, s, m - 1, dt);
    }
}

/// The ship pass of one tick: every sample point of the ship's grid repels
/// every particle within its radius, and the contributions accumulate on the
/// particle's velocity. Runs after the velocity pass, so its push is not
/// clamped until the next tick. Skipped entirely by the host when no ship
/// exists.
pub fn ship_repells_water_balls(balls: &mut Vec<WaterBall>, s: Ship, dt: i64)
    requires
        balls_in_range(old(balls)@),
        forall|i: int|
            0 <= i < old(balls)@.len() ==> {
                &&& -VEL_CAP <= (#[trigger] old(balls)@[i]).velocity.x <= VEL_CAP
                &&& -VEL_CAP <= old(balls)@[i].velocity.y <= VEL_CAP
            },
        ship_in_range(s),
        0 <= dt <= DT_LIMIT,
    ensures
        final(balls)@.len() == old(balls)@.len(),
        forall|i: int|
            0 <= i < final(balls)@.len() ==> {
                &&& (#[trigger] final(balls)@[i]).x == old(balls)@[i].x
                &&& final(balls)@[i].y == old(balls)@[i].y
                &&& final(balls)@[i].velocity.x == old(balls)@[i].velocity.x + ship_sum_x(
                    old(balls)@[i],
                    s,
                    dt as int,
                    SHIP_GRID_LEN as int,
                )
                &&& final(balls)@[i].velocity.y == old(balls)@[i].velocity.y + ship_sum_y(
                    old(balls)@[i],
                    s,
                    dt as int,
                    SHIP_GRID_LEN as int,
                )
            },
        forall|i: int|
            0 <= i < final(balls)@.len() ==> {
                &&& -2_000_000_000_000_000 <= (#[trigger] final(balls)@[i]).velocity.x
                    <= 2_000_000_000_000_000
                &&& -2_000_000_000_000_000 <= final(balls)@[i].velocity.y <= 2_000_000_000_000_000
            },
        balls_in_range(final(balls)@),
{
    let ghost snap = old(balls)@;
    let n = balls.len();
    let mut k: usize = 0;
    while k < 144
        invariant
            n == balls@.len(),
            n == snap.len(),
            balls_in_range(snap),
            forall|i: int|
                0 <= i < n ==> {
                    &&& -VEL_CAP <= (#[trigger] snap[i]).velocity.x <= VEL_CAP
                    &&& -VEL_CAP <= snap[i].velocity.y <= VEL_CAP
                },
            ship_in_range(s),
            0 <= dt <= DT_LIMIT,
            k <= 144,
            forall|i: int|
                0 <= i < n ==> {
                    &&& (#[trigger] balls@[i]).x == snap[i].x
                    &&& balls@[i].y == snap[i].y
                    &&& balls@[i].velocity.x == snap[i].velocity.x + ship_sum_x(
                        snap[i],
                        s,
                        dt as int,
                        k as int,
                    )
                    &&& balls@[i].velocity.y == snap[i].velocity.y + ship_sum_y(
                        snap[i],
                        s,
                        dt as int,
                        k as int,
                    )
                },
        decreases 144 - k,
    {
        let xi: i64 = -4 + (k / 18) as i64;
        let yi: i64 = -9 + (k % 18) as i64;
        assert(xi == grid_xi(k as int) && yi == grid_yi(k as int));
        assert(-4 <= xi <= 3 && -9 <= yi <= 8);
        proof {
            assert(-13_000 <= s.fy * xi + s.fx * yi <= 13_000
                && -13_000 <= s.fx * xi + s.fy * yi <= 13_000
                && -9_000 <= s.fy * xi <= 9_000 && -9_000 <= s.fx * yi <= 9_000
                && -9_000 <= s.fx * xi <= 9_000 && -9_000 <= s.fy * yi <= 9_000)
                by (nonlinear_arith)
                requires
                    -1000 <= s.fx <= 1000,
                    -1000 <= s.fy <= 1000,
                    -4 <= xi <= 3,
                    -9 <= yi <= 8,
            ;
        }
        let ptx: i64 = s.x + 10 * (s.fy * xi + s.fx * yi);
        let pty: i64 = s.y + 10 * (s.fx * xi + s.fy * yi);
        assert(ptx == ship_point_x(s, k as int) && pty == ship_point_y(s, k as int));
        let mut i: usize = 0;
        while i < n
            invariant
                n == balls@.len(),
                n == snap.len(),
                balls_in_range(snap),
                forall|q: int|
                    0 <= q < n ==> {
                        &&& -VEL_CAP <= (#[trigger] snap[q]).velocity.x <= VEL_CAP
                        &&& -VEL_CAP <= snap[q].velocity.y <= VEL_CAP
                    },
                ship_in_range(s),
                0 <= dt <= DT_LIMIT,
                k < 144,
                i <= n,
                ptx == ship_point_x(s, k as int),
                pty == ship_point_y(s, k as int),
                -2_000_000_000_000_000 <= ptx <= 2_000_000_000_000_000,
                -2_000_000_000_000_000 <= pty <= 2_000_000_000_000_000,
                forall|q: int|
                    0 <= q < i ==> {
                        &&& (#[trigger] balls@[q]).x == snap[q].x
                        &&& balls@[q].y == snap[q].y
                        &&& balls@[q].velocity.x == snap[q].velocity.x + ship_sum_x(
                            snap[q],
                            s,
                            dt as int,
                            k + 1int,
                        )
                        &&& balls@[q].velocity.y == snap[q].velocity.y + ship_sum_y(
                            snap[q],
                            s,
                            dt as int,
                            k + 1int,
                        )
                    },
                forall|q: int|
                    i <= q < n ==> {
                        &&& (#[trigger] balls@[q]).x == snap[q].x
                        &&& balls@[q].y == snap[q].y
                        &&& balls@[q].velocity.x == snap[q].velocity.x + ship_sum_x(
                            snap[q],
                            s,
                            dt as int,
                            k as int,
                        )
                        &&& balls@[q].velocity.y == snap[q].velocity.y + ship_sum_y(
                            snap[q],
                            s,
                            dt as int,
                            k as int,
                        )
                    },
            decreases n - i,
        {
            let p = balls[i];
            proof {
                lemma_ship_sum_bound(snap[i as int], s, dt as int, k as int);
                lemma_ship_sum_bound(snap[i as int], s, dt as int, k + 1);
                lemma_ship_delta_bound(snap[i as int], s, k as int, dt as int);
                assert(k * SHIP_TERM_MAX <= 864_000_000_000_000int && (k + 1)
                    * SHIP_TERM_MAX <= 864_000_000_000_000int) by (nonlinear_arith)
                    requires
                        0 <= k < 144,
                        SHIP_TERM_MAX == 6_000_000_000_000,
                ;
            }
            let dx: i128 = p.x as i128 - ptx as i128;
            let dy: i128 = p.y as i128 - pty as i128;
            assert(ball_in_range(snap[i as int]));
            assert(dx * dx >= 0 && dy * dy >= 0
                && dx * dx + dy * dy <= 100_000_000_000_000_000_000_000_000_000_000int)
                by (nonlinear_arith)
                requires
                    -4_000_000_000_000_000 <= dx <= 4_000_000_000_000_000,
                    -4_000_000_000_000_000 <= dy <= 4_000_000_000_000_000,
            ;
            let d2: i128 = dx * dx + dy * dy;
            if d2 < SHIP_RANGE_SQ as i128 {
                let den: i128 = if d2 < DIST_SQ_MIN as i128 {
                    DIST_SQ_MIN as i128
                } else {
                    d2
                };
                assert(den == safe_dist_sq(d2 as int));
                assert(-40_000 <= dx <= 40_000 && -40_000 <= dy <= 40_000) by (nonlinear_arith)
                    requires
                        dx * dx + dy * dy < 1_600_000_000,
                        dx * dx >= 0,
                        dy * dy >= 0,
                ;
                assert(-2_400_000_000int <= dt * dx <= 2_400_000_000int
                    && -2_400_000_000int <= dt * dy <= 2_400_000_000int
                    && -240_000_000_000_000_000int <= dt * dx * 100_000_000
                    <= 240_000_000_000_000_000int
                    && -240_000_000_000_000_000int <= dt * dy * 100_000_000
                    <= 240_000_000_000_000_000int) by (nonlinear_arith)
                    requires
                        0 <= dt <= 60_000,
                        -40_000 <= dx <= 40_000,
                        -40_000 <= dy <= 40_000,
                ;
                let tx: i128 = div_trunc(dt as i128 * dx * SHIP_FACTOR as i128, den);
                let ty: i128 = div_trunc(dt as i128 * dy * SHIP_FACTOR as i128, den);
                assert(tx == ship_delta_x(snap[i as int], s, k as int, dt as int));
                assert(ty == ship_delta_y(snap[i as int], s, k as int, dt as int));
                let vx: i128 = p.velocity.x as i128 + tx;
                let vy: i128 = p.velocity.y as i128 + ty;
                let mut nb = p;
                nb.velocity = Velocity2 { x: vx as i64, y: vy as i64 };
                balls.set(i, nb);
            } else {
                assert(ship_delta_x(snap[i as int], s, k as int, dt as int) == 0);
                assert(ship_delta_y(snap[i as int], s, k as int, dt as int) == 0);
            }
            i += 1;
        }
        k += 1;
    }
    proof {
        assert forall|i: int| 0 <= i < balls@.len() implies
            -2_000_000_000_000_000 <= (#[trigger] balls@[i]).velocity.x <= 2_000_000_000_000_000
                && -2_000_000_000_000_000 <= balls@[i].velocity.y <= 2_000_000_000_000_000 by {
            lemma_ship_sum_bound(snap[i], s, dt as int, SHIP_GRID_LEN as int);
            assert(SHIP_GRID_LEN * SHIP_TERM_MAX == 864_000_000_000_000int) by (nonlinear_arith)
                requires
                    SHIP_GRID_LEN == 144,
                    SHIP_TERM_MAX == 6_000_000_000_000,
            ;
        }
    }
}

/// One steering delta on one axis: `dt * axis * speed`, scaled back to
/// milli-units. `axis` is a component of the direction steered along and
/// `speed` is in units per second.
pub open spec fn steer_delta(axis: int, speed: int, dt: int) -> int {
    tdiv(dt * axis * speed, SCALE as int)
}

/// The ship's x coordinate after one steering step, before saturation.
pub open spec fn steered_x(s: Ship, fwd: bool, back: bool, left: bool, right: bool, dt: int) -> int {
    s.x + (if fwd { steer_delta(s.fx as int, SHIP_SPEED_FWD as int, dt) } else { 0 })
        + (if back { steer_delta(s.fx as int, -SHIP_SPEED_REV as int, dt) } else { 0 })
        + (if left { steer_delta(-s.fy as int, SHIP_SPEED_FWD as int, dt) } else { 0 })
        + (if right { steer_delta(s.fy as int, SHIP_SPEED_FWD as int, dt) } else { 0 })
}

/// The ship's y coordinate after one steering step, before saturation.
pub open spec fn steered_y(s: Ship, fwd: bool, back: bool, left: bool, right: bool, dt: int) -> int {
    s.y + (if fwd { steer_delta(s.fy as int, SHIP_SPEED_FWD as int, dt) } else { 0 })
        + (if back { steer_delta(s.fy as int, -SHIP_SPEED_REV as int, dt) } else { 0 })
        + (if left { steer_delta(s.fx as int, SHIP_SPEED_FWD as int, dt) } else { 0 })
        + (if right { steer_delta(-s.fx as int, SHIP_SPEED_FWD as int, dt) } else { 0 })
}

/// Saturation of a steered coordinate at the coordinate bound.
pub open spec fn saturate_pos(pos: int) -> int {
    if pos > POS_LIMIT {
        POS_LIMIT as int
    } else if pos < -POS_LIMIT {
        -POS_LIMIT as int
    } else {
        pos
    }
}

/// Keyboard steering of the ship: held keys translate the pose along its
/// forward, backward, left and right directions — 200 units per second
/// forward and sideways, 100 units per second in reverse. The orientation
/// itself is steered by the host (it tracks the pointer), so the forward
/// axis passes through unchanged.
#[verifier::rlimit(60)]
pub fn keyboard_controls_ship(s: Ship, fwd: bool, back: bool, left: bool, right: bool, dt: i64) -> (r: Ship)
    requires
        ship_in_range(s),
        0 <= dt <= DT_LIMIT,
    ensures
        r.x == saturate_pos(steered_x(s, fwd, back, left, right, dt as int)),
        r.y == saturate_pos(steered_y(s, fwd, back, left, right, dt as int)),
        r.fx == s.fx,
        r.fy == s.fy,
        ship_in_range(r),
{
    proof {
        assert(-12_000_000_000int <= dt * s.fx * 200 <= 12_000_000_000int
            && -12_000_000_000int <= dt * s.fy * 200 <= 12_000_000_000int
            && -12_000_000_000int <= dt * s.fx * (-100) <= 12_000_000_000int
            && -12_000_000_000int <= dt * s.fy * (-100) <= 12_000_000_000int
            && -12_000_000_000int <= dt * (-s.fx) * 200 <= 12_000_000_000int
            && -12_000_000_000int <= dt * (-s.fy) * 200 <= 12_000_000_000int
            && -12_000_000_000int <= dt * s.fx <= 12_000_000_000int
            && -12_000_000_000int <= dt * s.fy <= 12_000_000_000int
            && -12_000_000_000int <= dt * (-s.fx) <= 12_000_000_000int
            && -12_000_000_000int <= dt * (-s.fy) <= 12_000_000_000int) by (nonlinear_arith)
            requires
                0 <= dt <= 60_000,
                -1000 <= s.fx <= 1000,
                -1000 <= s.fy <= 1000,
        ;
    }
    let mut nx: i128 = s.x as i128;
    let mut ny: i128 = s.y as i128;
    if fwd {
        nx = nx + div_trunc(dt as i128 * s.fx as i128 * SHIP_SPEED_FWD as i128, SCALE as i128);
        ny = ny + div_trunc(dt as i128 * s.fy as i128 * SHIP_SPEED_FWD as i128, SCALE as i128);
        proof {
            lemma_tdiv_abs_bound(dt * s.fx * SHIP_SPEED_FWD, SCALE as int);
            lemma_tdiv_abs_bound(dt * s.fy * SHIP_SPEED_FWD, SCALE as int);
        }
    }
    if back {
        nx = nx + div_trunc(dt as i128 * s.fx as i128 * -(SHIP_SPEED_REV as i128), SCALE as i128);
        ny = ny + div_trunc(dt as i128 * s.fy as i128 * -(SHIP_SPEED_REV as i128), SCALE as i128);
        proof {
            lemma_tdiv_abs_bound(dt * s.fx * (-SHIP_SPEED_REV), SCALE as int);
            lemma_tdiv_abs_bound(dt * s.fy * (-SHIP_SPEED_REV), SCALE as int);
        }
    }
    if left {
        nx = nx + div_trunc(dt as i128 * -(s.fy as i128) * SHIP_SPEED_FWD as i128, SCALE as i128);
        ny = ny + div_trunc(dt as i128 * s.fx as i128 * SHIP_SPEED_FWD as i128, SCALE as i128);
        proof {
            lemma_tdiv_abs_bound(dt * (-s.fy) * SHIP_SPEED_FWD, SCALE as int);
            lemma_tdiv_abs_bound(dt * s.fx * SHIP_SPEED_FWD, SCALE as int);
        }
    }
    if right {
        nx = nx + div_trunc(dt as i128 * s.fy as i128 * SHIP_SPEED_FWD as i128, SCALE as i128);
        ny = ny + div_trunc(dt as i128 * -(s.fx as i128) * SHIP_SPEED_FWD as i128, SCALE as i128);
        proof {
            lemma_tdiv_abs_bound(dt * s.fy * SHIP_SPEED_FWD, SCALE as int);
            lemma_tdiv_abs_bound(dt * (-s.fx) * SHIP_SPEED_FWD, SCALE as int);
        }
    }
    let rx: i64 = if nx > POS_LIMIT as i128 {
        POS_LIMIT
    } else if nx < -(POS_LIMIT as i128) {
        -POS_LIMIT
    } else {
        nx as i64
    };
    let ry: i64 = if ny > POS_LIMIT as i128 {
        POS_LIMIT
    } else if ny < -(POS_LIMIT as i128) {
        -POS_LIMIT
    } else {
        ny as i64
    };
    Ship { x: rx, y: ry, fx: s.fx, fy: s.fy }
}

} // verus!
