//! The per-tick velocity pass: pairwise repulsion over all particle pairs,
//! soft boundary confinement, damping and the per-axis clamp; and the
//! position pass that advances every particle by its velocity.
//!
//! Every executable step is specified exactly by a spec function over the
//! mathematical integers; wide intermediates keep the executable arithmetic
//! free of overflow.

use vstd::prelude::*;

use crate::fixed::tdiv;
use crate::fixed::div_trunc;
use crate::fixed::lemma_tdiv_abs_bound;
use crate::params::SCALE;
use crate::params::VEL_LIMIT;
use crate::params::DAMP_NUM;
use crate::params::DAMP_DEN;
use crate::params::REPEL_RANGE_SQ;
use crate::params::REPEL_FACTOR;
use crate::params::POS_LIMIT;
use crate::params::DT_LIMIT;
use crate::params::DIST_SQ_MIN;
use crate::params::REPEL_TERM_MAX;
use crate::params::COUNT_LIMIT;
use crate::water::WaterBall;
use crate::water::Velocity2;
use crate::water::ball_in_range;
use crate::water::balls_in_range;
use vstd::pervasive::VecAdditionalExecFns;

verus! {

/// Squared distance between `(ax, ay)` and `(bx, by)`, milli-units squared.
pub open spec fn dist_sq(ax: int, ay: int, bx: int, by: int) -> int {
    (ax - bx) * (ax - bx) + (ay - by) * (ay - by)
}

/// The divisor actually used for a squared distance: zero (coincident
/// particles) is raised to `DIST_SQ_MIN`, so no force ever divides by zero.
pub open spec fn safe_dist_sq(d2: int) -> int {
    if d2 < DIST_SQ_MIN {
        DIST_SQ_MIN as int
    } else {
        d2
    }
}

/// One pairwise repulsion delta along one axis: `dt * d * K / d2` inside the
/// cutoff radius, nothing at or beyond it. `d` is the axis distance from the
/// other particle to this one, so the delta pushes this particle away.
pub open spec fn repel_delta(d: int, d2: int, dt: int) -> int {
    if d2 < REPEL_RANGE_SQ {
        tdiv(dt * d * REPEL_FACTOR, safe_dist_sq(d2))
    } else {
        0
    }
}

/// Squared distance between two particles.
pub open spec fn ball_dist_sq(p: WaterBall, o: WaterBall) -> int {
    dist_sq(p.x as int, p.y as int, o.x as int, o.y as int)
}

/// Repulsion of `o` on `p` along the x axis.
pub open spec fn repel_delta_x(p: WaterBall, o: WaterBall, dt: int) -> int {
    repel_delta(p.x - o.x, ball_dist_sq(p, o), dt)
}

/// Repulsion of `o` on `p` along the y axis.
pub open spec fn repel_delta_y(p: WaterBall, o: WaterBall, dt: int) -> int {
    repel_delta(p.y - o.y, ball_dist_sq(p, o), dt)
}

/// Net x repulsion on particle `i` from the particles of `s` below index
/// `n`, the particle itself excluded — identity is the index, so coincident
/// particles still repel each other.
pub open spec fn repel_sum_x(s: Seq<WaterBall>, i: int, n: int, dt: int) -> int
    decreases n,
{
    if n <= 0 {
        0
    } else {
        repel_sum_x(s, i, n - 1, dt) + if n - 1 == i {
            0
        } else {
            repel_delta_x(s[i], s[n - 1], dt)
        }
    }
}

/// Net y repulsion on particle `i` from the particles of `s` below index `n`.
pub open spec fn repel_sum_y(s: Seq<WaterBall>, i: int, n: int, dt: int) -> int
    decreases n,
{
    if n <= 0 {
        0
    } else {
        repel_sum_y(s, i, n - 1, dt) + if n - 1 == i {
            0
        } else {
            repel_delta_y(s[i], s[n - 1], dt)
        }
    }
}

/// Soft boundary confinement on one axis: a corrective delta proportional to
/// how far the position lies past either half-extent, zero inside.
pub open spec fn confine_delta(pos: int, extent: int, dt: int) -> int {
    (if pos < -extent {
        tdiv(dt * (-extent - pos), SCALE as int)
    } else {
        0
    }) + (if extent < pos {
        tdiv(dt * (extent - pos), SCALE as int)
    } else {
        0
    })
}

/// Uniform damping: multiply by 0.999, truncating toward zero.
pub open spec fn damp(v: int) -> int {
    tdiv(v * DAMP_NUM, DAMP_DEN as int)
}

/// Per-axis velocity clamp to `[-VEL_LIMIT, VEL_LIMIT]`.
pub open spec fn clamp_vel(v: int) -> int {
    if v > VEL_LIMIT {
        VEL_LIMIT as int
    } else if v < -VEL_LIMIT {
        -VEL_LIMIT as int
    } else {
        v
    }
}

/// The x velocity of particle `i` after one velocity pass over the snapshot
/// `s`: forces summed into the velocity, then damping, then the clamp.
pub open spec fn next_vel_x(s: Seq<WaterBall>, i: int, dt: int, x_extent: int) -> int {
    clamp_vel(
        damp(
            s[i].velocity.x + repel_sum_x(s, i, s.len() as int, dt) + confine_delta(
                s[i].x as int,
                x_extent,
                dt,
            ),
        ),
    )
}

/// The y velocity of particle `i` after one velocity pass over `s`.
pub open spec fn next_vel_y(s: Seq<WaterBall>, i: int, dt: int, y_extent: int) -> int {
    clamp_vel(
        damp(
            s[i].velocity.y + repel_sum_y(s, i, s.len() as int, dt) + confine_delta(
                s[i].y as int,
                y_extent,
                dt,
            ),
        ),
    )
}

/// Inside the cutoff the axis distance is below 300 units, so one pairwise
/// delta never exceeds `REPEL_TERM_MAX`.
pub proof fn lemma_repel_delta_bound(p: WaterBall, o: WaterBall, dt: int)
    requires
        0 <= dt <= DT_LIMIT,
    ensures
        -REPEL_TERM_MAX <= repel_delta_x(p, o, dt) <= REPEL_TERM_MAX,
        -REPEL_TERM_MAX <= repel_delta_y(p, o, dt) <= REPEL_TERM_MAX,
{
    let dx = p.x - o.x;
    let dy = p.y - o.y;
    let d2 = ball_dist_sq(p, o);
    assert(d2 == dx * dx + dy * dy);
    if d2 < REPEL_RANGE_SQ {
        assert(dx * dx >= 0 && dy * dy >= 0) by (nonlinear_arith);
        assert(-300_000 <= dx <= 300_000 && -300_000 <= dy <= 300_000) by (nonlinear_arith)
            requires
                dx * dx + dy * dy < 90_000_000_000,
                dx * dx >= 0,
                dy * dy >= 0,
        ;
        assert(
            -(REPEL_TERM_MAX as int) <= dt * dx * 1_000_000 <= REPEL_TERM_MAX as int
        ) by (nonlinear_arith)
            requires
                0 <= dt <= 60_000,
                -300_000 <= dx <= 300_000,
        ;
        assert(
            -(REPEL_TERM_MAX as int) <= dt * dy * 1_000_000 <= REPEL_TERM_MAX as int
        ) by (nonlinear_arith)
            requires
                0 <= dt <= 60_000,
                -300_000 <= dy <= 300_000,
        ;
        lemma_tdiv_abs_bound(dt * dx * REPEL_FACTOR, safe_dist_sq(d2));
        lemma_tdiv_abs_bound(dt * dy * REPEL_FACTOR, safe_dist_sq(d2));
    }
}

/// The summed pairwise deltas grow at most linearly in the count.
pub proof fn lemma_repel_sum_bound(s: Seq<WaterBall>, i: int, n: int, dt: int)
    requires
        0 <= n <= s.len(),
        0 <= dt <= DT_LIMIT,
    ensures
        -(n * REPEL_TERM_MAX) <= repel_sum_x(s, i, n, dt) <= n * REPEL_TERM_MAX,
        -(n * REPEL_TERM_MAX) <= repel_sum_y(s, i, n, dt) <= n * REPEL_TERM_MAX,
    decreases n,
{
    if n > 0 {
        lemma_repel_sum_bound(s, i, n - 1, dt);
        lemma_repel_delta_bound(s[i], s[n - 1], dt);
    }
}

/// The velocity pass of one tick. Reads a stable snapshot of all positions,
/// and writes every particle's new velocity: pairwise repulsion against every
/// other particle, boundary confinement past the half-extents, damping by
/// 0.999, and the per-axis clamp. Positions are untouched, so the pass is
/// order-independent across particles.
pub fn update_velocity(balls: &mut Vec<WaterBall>, dt: i64, x_extent: i64, y_extent: i64)
    requires
        balls_in_range(old(balls)@),
        old(balls)@.len() <= COUNT_LIMIT,
        0 <= dt <= DT_LIMIT,
        -POS_LIMIT <= x_extent <= POS_LIMIT,
        -POS_LIMIT <= y_extent <= POS_LIMIT,
    ensures
        final(balls)@.len() == old(balls)@.len(),
        forall|i: int|
            0 <= i < final(balls)@.len() ==> {
                &&& (#[trigger] final(balls)@[i]).x == old(balls)@[i].x
                &&& final(balls)@[i].y == old(balls)@[i].y
                &&& final(balls)@[i].velocity.x == next_vel_x(old(balls)@, i, dt as int, x_extent as int)
                &&& final(balls)@[i].velocity.y == next_vel_y(old(balls)@, i, dt as int, y_extent as int)
            },
        forall|i: int|
            0 <= i < final(balls)@.len() ==> {
                &&& -VEL_LIMIT <= (#[trigger] final(balls)@[i]).velocity.x <= VEL_LIMIT
                &&& -VEL_LIMIT <= final(balls)@[i].velocity.y <= VEL_LIMIT
            },
{
    let ghost snap = old(balls)@;
    let n = balls.len();
    let mut i: usize = 0;
    while i < n
        invariant
            n == balls@.len(),
            n == snap.len(),
            n <= COUNT_LIMIT,
            balls_in_range(snap),
            0 <= dt <= DT_LIMIT,
            -POS_LIMIT <= x_extent <= POS_LIMIT,
            -POS_LIMIT <= y_extent <= POS_LIMIT,
            i <= n,
            forall|k: int|
                0 <= k < n ==> (#[trigger] balls@[k]).x == snap[k].x && balls@[k].y == snap[k].y,
            forall|k: int|
                0 <= k < i ==> {
                    &&& (#[trigger] balls@[k]).velocity.x == next_vel_x(snap, k, dt as int, x_extent as int)
                    &&& balls@[k].velocity.y == next_vel_y(snap, k, dt as int, y_extent as int)
                },
            forall|k: int| i <= k < n ==> (#[trigger] balls@[k]).velocity == snap[k].velocity,
        decreases n - i,
    {
        let p = balls[i];
        assert(p.x == snap[i as int].x && p.y == snap[i as int].y);
        assert(p.velocity == snap[i as int].velocity);
        let mut acc_x: i128 = p.velocity.x as i128;
        let mut acc_y: i128 = p.velocity.y as i128;
        let mut j: usize = 0;
        while j < n
            invariant
                n == balls@.len(),
                n == snap.len(),
                n <= COUNT_LIMIT,
                balls_in_range(snap),
                0 <= dt <= DT_LIMIT,
                i < n,
                j <= n,
                p.x == snap[i as int].x && p.y == snap[i as int].y,
                p.velocity == snap[i as int].velocity,
                forall|k: int|
                    0 <= k < n ==> (#[trigger] balls@[k]).x == snap[k].x && balls@[k].y == snap[k].y,
                acc_x == snap[i as int].velocity.x + repel_sum_x(snap, i as int, j as int, dt as int),
                acc_y == snap[i as int].velocity.y + repel_sum_y(snap, i as int, j as int, dt as int),
            decreases n - j,
        {
            if j != i {
                let o = balls[j];
                assert(o.x == snap[j as int].x && o.y == snap[j as int].y);
                assert(ball_in_range(snap[i as int]) && ball_in_range(snap[j as int]));
                let dx: i128 = p.x as i128 - o.x as i128;
                let dy: i128 = p.y as i128 - o.y as i128;
                assert(dx * dx + dy * dy <= 0x10_0000_0000_0000_0000_0000_0000_0000int
                    && dx * dx >= 0 && dy * dy >= 0) by (nonlinear_arith)
                    requires
                        -2_000_000_000_000_000 <= dx <= 2_000_000_000_000_000,
                        -2_000_000_000_000_000 <= dy <= 2_000_000_000_000_000,
                ;
                let d2: i128 = dx * dx + dy * dy;
                proof {
                    lemma_repel_delta_bound(snap[i as int], snap[j as int], dt as int);
                    lemma_repel_sum_bound(snap, i as int, j as int, dt as int);
                }
                proof {
                    assert(j * REPEL_TERM_MAX <= 18_000_000_000_000_000_000_000_000int)
                        by (nonlinear_arith)
                        requires
                            0 <= j <= 1_000_000_000,
                            REPEL_TERM_MAX == 18_000_000_000_000_000,
                    ;
                }
                if d2 < REPEL_RANGE_SQ as i128 {
                    let den: i128 = if d2 < DIST_SQ_MIN as i128 {
                        DIST_SQ_MIN as i128
                    } else {
                        d2
                    };
                    assert(den == safe_dist_sq(d2 as int));
                    assert(-300_000 <= dx <= 300_000 && -300_000 <= dy <= 300_000)
                        by (nonlinear_arith)
                        requires
                            dx * dx + dy * dy < 90_000_000_000,
                            dx * dx >= 0,
                            dy * dy >= 0,
                    ;
                    assert(-18_000_000_000int <= dt * dx <= 18_000_000_000int
                        && -18_000_000_000int <= dt * dy <= 18_000_000_000int
                        && -18_000_000_000_000_000int <= dt * dx * 1_000_000 <= 18_000_000_000_000_000int
                        && -18_000_000_000_000_000int <= dt * dy * 1_000_000 <= 18_000_000_000_000_000int)
                        by (nonlinear_arith)
                        requires
                            0 <= dt <= 60_000,
                            -300_000 <= dx <= 300_000,
                            -300_000 <= dy <= 300_000,
                    ;
                    let num_x: i128 = dt as i128 * dx * REPEL_FACTOR as i128;
                    let num_y: i128 = dt as i128 * dy * REPEL_FACTOR as i128;
                    let tx: i128 = div_trunc(num_x, den);
                    let ty: i128 = div_trunc(num_y, den);
                    assert(tx == repel_delta_x(snap[i as int], snap[j as int], dt as int));
                    assert(ty == repel_delta_y(snap[i as int], snap[j as int], dt as int));
                    acc_x = acc_x + tx;
                    acc_y = acc_y + ty;
                } else {
                    assert(repel_delta_x(snap[i as int], snap[j as int], dt as int) == 0);
                    assert(repel_delta_y(snap[i as int], snap[j as int], dt as int) == 0);
                }
            }
            j += 1;
        }
        proof {
            lemma_repel_sum_bound(snap, i as int, n as int, dt as int);
            assert(n * REPEL_TERM_MAX <= 18_000_000_000_000_000_000_000_000int)
                by (nonlinear_arith)
                requires
                    0 <= n <= 1_000_000_000,
                    REPEL_TERM_MAX == 18_000_000_000_000_000,
            ;
            assert(ball_in_range(snap[i as int]));
            assert(-130_000_000_000_000_000_000int <= dt * (-x_extent - p.x)
                <= 130_000_000_000_000_000_000int
                && -130_000_000_000_000_000_000int <= dt * (x_extent - p.x)
                <= 130_000_000_000_000_000_000int
                && -130_000_000_000_000_000_000int <= dt * (-y_extent - p.y)
                <= 130_000_000_000_000_000_000int
                && -130_000_000_000_000_000_000int <= dt * (y_extent - p.y)
                <= 130_000_000_000_000_000_000int) by (nonlinear_arith)
                requires
                    0 <= dt <= 60_000,
                    -1_000_000_000_000_000 <= x_extent <= 1_000_000_000_000_000,
                    -1_000_000_000_000_000 <= y_extent <= 1_000_000_000_000_000,
                    -1_000_000_000_000_000 <= p.x <= 1_000_000_000_000_000,
                    -1_000_000_000_000_000 <= p.y <= 1_000_000_000_000_000,
            ;
        }
        let px: i128 = p.x as i128;
        let py: i128 = p.y as i128;
        if p.x < -x_extent {
            let t = div_trunc(dt as i128 * (-(x_extent as i128) - px), SCALE as i128);
            proof {
                lemma_tdiv_abs_bound(dt as int * (-x_extent - p.x), SCALE as int);
            }
            acc_x = acc_x + t;
        }
        if x_extent < p.x {
            let t = div_trunc(dt as i128 * (x_extent as i128 - px), SCALE as i128);
            proof {
                lemma_tdiv_abs_bound(dt as int * (x_extent - p.x), SCALE as int);
            }
            acc_x = acc_x + t;
        }
        if p.y < -y_extent {
            let t = div_trunc(dt as i128 * (-(y_extent as i128) - py), SCALE as i128);
            proof {
                lemma_tdiv_abs_bound(dt as int * (-y_extent - p.y), SCALE as int);
            }
            acc_y = acc_y + t;
        }
        if y_extent < p.y {
            let t = div_trunc(dt as i128 * (y_extent as i128 - py), SCALE as i128);
            proof {
                lemma_tdiv_abs_bound(dt as int * (y_extent - p.y), SCALE as int);
            }
            acc_y = acc_y + t;
        }
        assert(acc_x == snap[i as int].velocity.x + repel_sum_x(snap, i as int, n as int, dt as int)
            + confine_delta(snap[i as int].x as int, x_extent as int, dt as int));
        assert(acc_y == snap[i as int].velocity.y + repel_sum_y(snap, i as int, n as int, dt as int)
            + confine_delta(snap[i as int].y as int, y_extent as int, dt as int));
        proof {
            assert(-30_000_000_000_000_000_000_000_000_000int <= acc_x * DAMP_NUM
                <= 30_000_000_000_000_000_000_000_000_000int
                && -30_000_000_000_000_000_000_000_000_000int <= acc_y * DAMP_NUM
                <= 30_000_000_000_000_000_000_000_000_000int) by (nonlinear_arith)
                requires
                    -30_000_000_000_000_000_000_000_000int <= acc_x
                        <= 30_000_000_000_000_000_000_000_000int,
                    -30_000_000_000_000_000_000_000_000int <= acc_y
                        <= 30_000_000_000_000_000_000_000_000int,
                    DAMP_NUM == 999,
            ;
        }
        acc_x = div_trunc(acc_x * DAMP_NUM as i128, DAMP_DEN as i128);
        acc_y = div_trunc(acc_y * DAMP_NUM as i128, DAMP_DEN as i128);
        let vx: i64 = if acc_x > VEL_LIMIT as i128 {
            VEL_LIMIT
        } else if acc_x < -(VEL_LIMIT as i128) {
            -VEL_LIMIT
        } else {
            acc_x as i64
        };
        let vy: i64 = if acc_y > VEL_LIMIT as i128 {
            VEL_LIMIT
        } else if acc_y < -(VEL_LIMIT as i128) {
            -VEL_LIMIT
        } else {
            acc_y as i64
        };
        assert(vx == next_vel_x(snap, i as int, dt as int, x_extent as int));
        assert(vy == next_vel_y(snap, i as int, dt as int, y_extent as int));
        let mut nb = p;
        nb.velocity = Velocity2 { x: vx, y: vy };
        balls.set(i, nb);
        i += 1;
    }
}

/// New coordinate after one position step: the old coordinate plus
/// `velocity * dt`, saturated at the coordinate bound.
pub open spec fn next_pos(pos: int, vel: int, dt: int) -> int {
    let moved = pos + tdiv(dt * vel, SCALE as int);
    if moved > POS_LIMIT {
        POS_LIMIT as int
    } else if moved < -POS_LIMIT {
        -POS_LIMIT as int
    } else {
        moved
    }
}

/// The position pass of one tick: every particle advances by its velocity
/// times the elapsed time. Runs after all velocities are settled, so force
/// evaluation never reads a half-updated position.
pub fn water_movement(balls: &mut Vec<WaterBall>, dt: i64)
    requires
        balls_in_range(old(balls)@),
        0 <= dt <= DT_LIMIT,
    ensures
        final(balls)@.len() == old(balls)@.len(),
        forall|i: int|
            0 <= i < final(balls)@.len() ==> {
                &&& (#[trigger] final(balls)@[i]).velocity == old(balls)@[i].velocity
                &&& final(balls)@[i].x == next_pos(old(balls)@[i].x as int, old(balls)@[i].velocity.x as int, dt as int)
                &&& final(balls)@[i].y == next_pos(old(balls)@[i].y as int, old(balls)@[i].velocity.y as int, dt as int)
            },
        balls_in_range(final(balls)@),
{
    let ghost snap = old(balls)@;
    let n = balls.len();
    let mut i: usize = 0;
    while i < n
        invariant
            n == balls@.len(),
            n == snap.len(),
            balls_in_range(snap),
            0 <= dt <= DT_LIMIT,
            i <= n,
            forall|k: int|
                0 <= k < i ==> {
                    &&& (#[trigger] balls@[k]).velocity == snap[k].velocity
                    &&& balls@[k].x == next_pos(snap[k].x as int, snap[k].velocity.x as int, dt as int)
                    &&& balls@[k].y == next_pos(snap[k].y as int, snap[k].velocity.y as int, dt as int)
                    &&& ball_in_range(balls@[k])
                },
            forall|k: int| i <= k < n ==> (#[trigger] balls@[k]) == snap[k],
        decreases n - i,
    {
        let p = balls[i];
        assert(p == snap[i as int]);
        let nx = step_coord(p.x, p.velocity.x, dt);
        let ny = step_coord(p.y, p.velocity.y, dt);
        let mut nb = p;
        nb.x = nx;
        nb.y = ny;
        balls.set(i, nb);
        i += 1;
    }
}

/// One saturating position step on a single axis.
fn step_coord(pos: i64, vel: i64, dt: i64) -> (r: i64)
    requires
        -POS_LIMIT <= pos <= POS_LIMIT,
        0 <= dt <= DT_LIMIT,
    ensures
        r == next_pos(pos as int, vel as int, dt as int),
        -POS_LIMIT <= r <= POS_LIMIT,
{
    proof {
        assert(-600_000_000_000_000_000_000_000int <= dt * vel
            <= 600_000_000_000_000_000_000_000int) by (nonlinear_arith)
            requires
                0 <= dt <= 60_000,
                -9_223_372_036_854_775_808int <= vel <= 9_223_372_036_854_775_807int,
        ;
    }
    let step: i128 = div_trunc(dt as i128 * vel as i128, SCALE as i128);
    proof {
        lemma_tdiv_abs_bound(dt as int * vel as int, SCALE as int);
    }
    let moved: i128 = pos as i128 + step;
    if moved > POS_LIMIT as i128 {
        POS_LIMIT
    } else if moved < -(POS_LIMIT as i128) {
        -POS_LIMIT
    } else {
        moved as i64
    }
}

} // verus!
