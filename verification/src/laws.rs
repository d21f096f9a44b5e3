//! The simulation's stated laws, proved once and for all inputs: damping is
//! a strict contraction with fixed point zero, pairwise deltas are exact
//! opposites pointing apart, the repulsion cutoff is hard on both sides, and
//! boundary confinement always pushes back toward the interior.
//!
//! The velocity clamp law needs no lemma here: it is an `ensures` of
//! `update_velocity` and of `tick`, which bound every velocity they write.

use vstd::prelude::*;

use vstd::arithmetic::div_mod::lemma_div_pos_is_pos;
use vstd::arithmetic::div_mod::lemma_multiply_divide_lt;
use crate::fixed::tdiv;
use crate::fixed::lemma_tdiv_abs_bound;
use crate::fixed::lemma_tdiv_at_least_one;
use crate::params::SCALE;
use crate::params::VEL_LIMIT;
use crate::params::DAMP_NUM;
use crate::params::DAMP_DEN;
use crate::params::REPEL_RANGE_SQ;
use crate::params::REPEL_FACTOR;
use crate::water::WaterBall;
use crate::forces::damp;
use crate::forces::clamp_vel;
use crate::forces::confine_delta;
use crate::forces::ball_dist_sq;
use crate::forces::repel_delta_x;
use crate::forces::repel_delta_y;
use crate::forces::repel_sum_x;
use crate::forces::repel_sum_y;
use crate::forces::next_vel_x;
use crate::forces::next_vel_y;
use crate::forces::safe_dist_sq;

verus! {

/// Damping strictly shrinks any nonzero velocity toward zero and fixes
/// zero, so an undriven velocity decays monotonically to rest.
pub proof fn law_damping_shrinks(v: int)
    ensures
        v > 0 ==> 0 <= damp(v) < v,
        v < 0 ==> v < damp(v) <= 0,
        damp(0) == 0,
{
    if v > 0 {
        assert(0 <= v * DAMP_NUM < DAMP_DEN * v) by (nonlinear_arith)
            requires
                v > 0,
                DAMP_NUM == 999,
                DAMP_DEN == 1000,
        ;
        lemma_div_pos_is_pos(v * DAMP_NUM, DAMP_DEN as int);
        lemma_multiply_divide_lt(v * DAMP_NUM, DAMP_DEN as int, v);
    } else if v < 0 {
        assert(0 <= (-v) * DAMP_NUM < DAMP_DEN * (-v)) by (nonlinear_arith)
            requires
                v < 0,
                DAMP_NUM == 999,
                DAMP_DEN == 1000,
        ;
        assert(v * DAMP_NUM == -((-v) * DAMP_NUM)) by (nonlinear_arith);
        lemma_div_pos_is_pos((-v) * DAMP_NUM, DAMP_DEN as int);
        lemma_multiply_divide_lt((-v) * DAMP_NUM, DAMP_DEN as int, -v);
    }
}

/// The velocity after `k` damping passes.
pub open spec fn damp_iter(v: int, k: nat) -> int
    decreases k,
{
    if k == 0 {
        v
    } else {
        damp(damp_iter(v, (k - 1) as nat))
    }
}

/// Each damping pass takes a nonzero velocity at least one milli-unit
/// closer to zero, so after as many passes as the velocity's magnitude the
/// fixed point at zero is reached exactly.
pub proof fn law_damping_reaches_rest(v: int, k: nat)
    ensures
        vstd::math::abs(damp_iter(v, k)) <= vstd::math::max(0, vstd::math::abs(v) - k),
        k >= vstd::math::abs(v) ==> damp_iter(v, k) == 0,
    decreases k,
{
    if k > 0 {
        law_damping_reaches_rest(v, (k - 1) as nat);
        law_damping_shrinks(damp_iter(v, (k - 1) as nat));
    }
}

/// A single particle inside the boundary, with no other particle and no
/// ship, is exactly damped by one velocity pass: its speed on each axis
/// strictly decreases until the fixed point at zero.
pub proof fn law_isolated_damping(s: Seq<WaterBall>, dt: int, x_extent: int, y_extent: int)
    requires
        s.len() == 1,
        -x_extent <= s[0].x <= x_extent,
        -y_extent <= s[0].y <= y_extent,
        -VEL_LIMIT <= s[0].velocity.x <= VEL_LIMIT,
        -VEL_LIMIT <= s[0].velocity.y <= VEL_LIMIT,
    ensures
        next_vel_x(s, 0, dt, x_extent) == damp(s[0].velocity.x as int),
        next_vel_y(s, 0, dt, y_extent) == damp(s[0].velocity.y as int),
        s[0].velocity.x > 0 ==> 0 <= next_vel_x(s, 0, dt, x_extent) < s[0].velocity.x,
        s[0].velocity.x < 0 ==> s[0].velocity.x < next_vel_x(s, 0, dt, x_extent) <= 0,
        s[0].velocity.x == 0 ==> next_vel_x(s, 0, dt, x_extent) == 0,
        s[0].velocity.y > 0 ==> 0 <= next_vel_y(s, 0, dt, y_extent) < s[0].velocity.y,
        s[0].velocity.y < 0 ==> s[0].velocity.y < next_vel_y(s, 0, dt, y_extent) <= 0,
        s[0].velocity.y == 0 ==> next_vel_y(s, 0, dt, y_extent) == 0,
{
    assert(repel_sum_x(s, 0, 0, dt) == 0);
    assert(repel_sum_y(s, 0, 0, dt) == 0);
    assert(repel_sum_x(s, 0, 1, dt) == 0);
    assert(repel_sum_y(s, 0, 1, dt) == 0);
    assert(confine_delta(s[0].x as int, x_extent, dt) == 0);
    assert(confine_delta(s[0].y as int, y_extent, dt) == 0);
    law_damping_shrinks(s[0].velocity.x as int);
    law_damping_shrinks(s[0].velocity.y as int);
    assert(clamp_vel(damp(s[0].velocity.x as int)) == damp(s[0].velocity.x as int));
    assert(clamp_vel(damp(s[0].velocity.y as int)) == damp(s[0].velocity.y as int));
}

/// The raw pairwise deltas of two particles are exact opposites on each
/// axis — both computed from the same squared distance — and each delta
/// pushes its particle away from the other along the connecting line.
pub proof fn law_pairwise_opposite(a: WaterBall, b: WaterBall, dt: int)
    requires
        0 <= dt,
    ensures
        repel_delta_x(a, b, dt) == -repel_delta_x(b, a, dt),
        repel_delta_y(a, b, dt) == -repel_delta_y(b, a, dt),
        a.x >= b.x ==> repel_delta_x(a, b, dt) >= 0,
        a.x <= b.x ==> repel_delta_x(a, b, dt) <= 0,
        a.y >= b.y ==> repel_delta_y(a, b, dt) >= 0,
        a.y <= b.y ==> repel_delta_y(a, b, dt) <= 0,
{
    let dx = a.x - b.x;
    let dy = a.y - b.y;
    assert((a.x - b.x) * (a.x - b.x) == (b.x - a.x) * (b.x - a.x) && (a.y - b.y) * (a.y - b.y)
        == (b.y - a.y) * (b.y - a.y)) by (nonlinear_arith);
    assert(ball_dist_sq(a, b) == ball_dist_sq(b, a));
    let d2 = ball_dist_sq(a, b);
    let den = safe_dist_sq(d2);
    assert((a.x - b.x) * (a.x - b.x) >= 0 && (a.y - b.y) * (a.y - b.y) >= 0) by (nonlinear_arith);
    assert(den >= 1);
    assert(dt * (b.x - a.x) * REPEL_FACTOR == -(dt * (a.x - b.x) * REPEL_FACTOR))
        by (nonlinear_arith);
    assert(dt * (b.y - a.y) * REPEL_FACTOR == -(dt * (a.y - b.y) * REPEL_FACTOR))
        by (nonlinear_arith);
    if d2 < REPEL_RANGE_SQ {
        lemma_tdiv_abs_bound(dt * dx * REPEL_FACTOR, den);
        lemma_tdiv_abs_bound(dt * dy * REPEL_FACTOR, den);
        assert((a.x >= b.x ==> dt * (a.x - b.x) * REPEL_FACTOR >= 0) && (a.x <= b.x ==> dt * (a.x
            - b.x) * REPEL_FACTOR <= 0) && (a.y >= b.y ==> dt * (a.y - b.y) * REPEL_FACTOR >= 0)
            && (a.y <= b.y ==> dt * (a.y - b.y) * REPEL_FACTOR <= 0)) by (nonlinear_arith)
            requires
                0 <= dt,
                REPEL_FACTOR == 1_000_000,
        ;
    }
}

/// In a two-particle world the whole raw force on each particle is exactly
/// the one pairwise delta against the other, so the opposite-push law above
/// speaks of the velocity pass itself.
pub proof fn law_two_body_sum(s: Seq<WaterBall>, dt: int)
    requires
        s.len() == 2,
    ensures
        repel_sum_x(s, 0, 2, dt) == repel_delta_x(s[0], s[1], dt),
        repel_sum_y(s, 0, 2, dt) == repel_delta_y(s[0], s[1], dt),
        repel_sum_x(s, 1, 2, dt) == repel_delta_x(s[1], s[0], dt),
        repel_sum_y(s, 1, 2, dt) == repel_delta_y(s[1], s[0], dt),
{
    assert(repel_sum_x(s, 0, 0, dt) == 0);
    assert(repel_sum_x(s, 0, 1, dt) == 0);
    assert(repel_sum_x(s, 0, 2, dt) == repel_delta_x(s[0], s[1], dt));
    assert(repel_sum_y(s, 0, 0, dt) == 0);
    assert(repel_sum_y(s, 0, 1, dt) == 0);
    assert(repel_sum_y(s, 0, 2, dt) == repel_delta_y(s[0], s[1], dt));
    assert(repel_sum_x(s, 1, 0, dt) == 0);
    assert(repel_sum_x(s, 1, 1, dt) == repel_delta_x(s[1], s[0], dt));
    assert(repel_sum_x(s, 1, 2, dt) == repel_delta_x(s[1], s[0], dt));
    assert(repel_sum_y(s, 1, 0, dt) == 0);
    assert(repel_sum_y(s, 1, 1, dt) == repel_delta_y(s[1], s[0], dt));
    assert(repel_sum_y(s, 1, 2, dt) == repel_delta_y(s[1], s[0], dt));
}

/// The cutoff is hard on both sides: at or beyond the squared interaction
/// radius two particles exert nothing on each other, while strictly inside
/// it — and apart by any positive distance — any frame time of at least one
/// milli-second produces a nonzero repulsion on some axis.
pub proof fn law_repel_cutoff(a: WaterBall, b: WaterBall, dt: int)
    requires
        1 <= dt,
    ensures
        ball_dist_sq(a, b) >= REPEL_RANGE_SQ ==> repel_delta_x(a, b, dt) == 0
            && repel_delta_y(a, b, dt) == 0,
        0 < ball_dist_sq(a, b) < REPEL_RANGE_SQ ==> repel_delta_x(a, b, dt) != 0
            || repel_delta_y(a, b, dt) != 0,
{
    let dx = a.x - b.x;
    let dy = a.y - b.y;
    let d2 = ball_dist_sq(a, b);
    assert(d2 == dx * dx + dy * dy);
    if 0 < d2 < REPEL_RANGE_SQ {
        assert(safe_dist_sq(d2) == d2);
        assert(2 * (dx * dx) >= d2 || 2 * (dy * dy) >= d2) by (nonlinear_arith)
            requires
                d2 == dx * dx + dy * dy,
        ;
        if 2 * (dx * dx) >= d2 {
            assert(dx != 0) by (nonlinear_arith)
                requires
                    2 * (dx * dx) >= d2,
                    d2 > 0,
            ;
            if dx > 0 {
                assert(dt * dx * 1_000_000 >= d2) by (nonlinear_arith)
                    requires
                        1 <= dt,
                        1 <= dx,
                        d2 == dx * dx + dy * dy,
                        d2 <= 2 * (dx * dx),
                        d2 < 90_000_000_000,
                ;
                lemma_tdiv_at_least_one(dt * dx * REPEL_FACTOR, d2);
            } else {
                assert(dt * (-dx) * 1_000_000 >= d2 && dt * dx * 1_000_000 == -(dt * (-dx)
                    * 1_000_000)) by (nonlinear_arith)
                    requires
                        1 <= dt,
                        1 <= -dx,
                        d2 == dx * dx + dy * dy,
                        d2 <= 2 * (dx * dx),
                        d2 < 90_000_000_000,
                ;
                lemma_tdiv_at_least_one(dt * (-dx) * REPEL_FACTOR, d2);
                assert(dt * (-dx) * REPEL_FACTOR == -(dt * dx * REPEL_FACTOR)) by (nonlinear_arith)
                    requires
                        REPEL_FACTOR == 1_000_000,
                ;
                assert(tdiv(dt * dx * REPEL_FACTOR, d2) <= -1);
            }
        } else {
            assert(dy != 0) by (nonlinear_arith)
                requires
                    2 * (dy * dy) >= d2,
                    d2 > 0,
            ;
            if dy > 0 {
                assert(dt * dy * 1_000_000 >= d2) by (nonlinear_arith)
                    requires
                        1 <= dt,
                        1 <= dy,
                        d2 == dx * dx + dy * dy,
                        d2 <= 2 * (dy * dy),
                        d2 < 90_000_000_000,
                ;
                lemma_tdiv_at_least_one(dt * dy * REPEL_FACTOR, d2);
            } else {
                assert(dt * (-dy) * 1_000_000 >= d2 && dt * dy * 1_000_000 == -(dt * (-dy)
                    * 1_000_000)) by (nonlinear_arith)
                    requires
                        1 <= dt,
                        1 <= -dy,
                        d2 == dx * dx + dy * dy,
                        d2 <= 2 * (dy * dy),
                        d2 < 90_000_000_000,
                ;
                lemma_tdiv_at_least_one(dt * (-dy) * REPEL_FACTOR, d2);
                assert(dt * (-dy) * REPEL_FACTOR == -(dt * dy * REPEL_FACTOR)) by (nonlinear_arith)
                    requires
                        REPEL_FACTOR == 1_000_000,
                ;
                assert(tdiv(dt * dy * REPEL_FACTOR, d2) <= -1);
            }
        }
    }
}

/// Boundary confinement pushes strictly back toward the interior: a
/// particle past the low edge gets a positive correction and one past the
/// high edge a negative one, as soon as the product of frame time and
/// overshoot registers on the milli-unit grid — an overshoot of 10 units
/// does so for every positive frame time. Inside the boundary the
/// correction is exactly zero.
pub proof fn law_confine_sign(pos: int, extent: int, dt: int)
    requires
        0 <= dt,
        0 <= extent,
    ensures
        -extent <= pos <= extent ==> confine_delta(pos, extent, dt) == 0,
        pos < -extent && dt * (-extent - pos) >= SCALE ==> confine_delta(pos, extent, dt) >= 1,
        pos > extent && dt * (pos - extent) >= SCALE ==> confine_delta(pos, extent, dt) <= -1,
        pos <= -extent - 10_000 && dt >= 1 ==> confine_delta(pos, extent, dt) >= 1,
        pos >= extent + 10_000 && dt >= 1 ==> confine_delta(pos, extent, dt) <= -1,
{
    if pos < -extent && dt * (-extent - pos) >= SCALE {
        lemma_tdiv_at_least_one(dt * (-extent - pos), SCALE as int);
    }
    if pos > extent && dt * (pos - extent) >= SCALE {
        assert(dt * (extent - pos) == -(dt * (pos - extent))) by (nonlinear_arith);
        lemma_tdiv_at_least_one(dt * (pos - extent), SCALE as int);
        assert(tdiv(dt * (extent - pos), SCALE as int) <= -1);
    }
    if pos <= -extent - 10_000 && dt >= 1 {
        assert(dt * (-extent - pos) >= 10_000) by (nonlinear_arith)
            requires
                dt >= 1,
                -extent - pos >= 10_000,
        ;
        lemma_tdiv_at_least_one(dt * (-extent - pos), SCALE as int);
    }
    if pos >= extent + 10_000 && dt >= 1 {
        assert(dt * (pos - extent) >= 10_000 && dt * (extent - pos) == -(dt * (pos - extent)))
            by (nonlinear_arith)
            requires
                dt >= 1,
                pos - extent >= 10_000,
        ;
        lemma_tdiv_at_least_one(dt * (pos - extent), SCALE as int);
        assert(tdiv(dt * (extent - pos), SCALE as int) <= -1);
    }
}

} // verus!
