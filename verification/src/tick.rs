//! One simulation tick, in the fixed stage order: the velocity pass
//! (pairwise forces, boundary confinement, damping, clamp) over a stable
//! snapshot of all positions, then the ship's repulsion field if a ship
//! exists, then the position pass. Velocities settle completely before any
//! position moves, so the pairwise pass never reads a half-updated frame.

use vstd::prelude::*;

use crate::params::POS_LIMIT;
use crate::params::DT_LIMIT;
use crate::params::VEL_LIMIT;
use crate::params::COUNT_LIMIT;
use crate::params::SHIP_GRID_LEN;
use crate::params::SHIP_TERM_MAX;
use crate::params::TICK_VEL_LIMIT;
use crate::water::WaterBall;
use crate::water::balls_in_range;
use crate::forces::next_vel_x;
use crate::forces::next_vel_y;
use crate::forces::next_pos;
use crate::forces::update_velocity;
use crate::forces::water_movement;
use crate::ship::Ship;
use crate::ship::ship_in_range;
use crate::ship::ship_sum_x;
use crate::ship::ship_sum_y;
use crate::ship::ship_repells_water_balls;

verus! {

/// The ship field's x contribution to a particle over a whole tick: the sum
/// over all grid points when a ship exists, nothing when none does.
pub open spec fn ship_add_x(b: WaterBall, s: Option<Ship>, dt: int) -> int {
    match s {
        Option::Some(sh) => ship_sum_x(b, sh, dt, SHIP_GRID_LEN as int),
        Option::None => 0,
    }
}

/// The ship field's y contribution to a particle over a whole tick.
pub open spec fn ship_add_y(b: WaterBall, s: Option<Ship>, dt: int) -> int {
    match s {
        Option::Some(sh) => ship_sum_y(b, sh, dt, SHIP_GRID_LEN as int),
        Option::None => 0,
    }
}

/// The x velocity particle `i` carries into the position pass: the clamped
/// velocity-pass result, plus the ship field's unclamped push.
pub open spec fn tick_vel_x(
    s: Seq<WaterBall>,
    i: int,
    ship: Option<Ship>,
    dt: int,
    x_extent: int,
) -> int {
    next_vel_x(s, i, dt, x_extent) + ship_add_x(s[i], ship, dt)
}

/// The y velocity particle `i` carries into the position pass.
pub open spec fn tick_vel_y(
    s: Seq<WaterBall>,
    i: int,
    ship: Option<Ship>,
    dt: int,
    y_extent: int,
) -> int {
    next_vel_y(s, i, dt, y_extent) + ship_add_y(s[i], ship, dt)
}

/// The ship field reads only a particle's position: two particles at the
/// same spot collect the same push, whatever their velocities.
pub proof fn lemma_ship_sum_position_only(a: WaterBall, b: WaterBall, s: Ship, dt: int, m: int)
    requires
        a.x == b.x,
        a.y == b.y,
    ensures
        ship_sum_x(a, s, dt, m) == ship_sum_x(b, s, dt, m),
        ship_sum_y(a, s, dt, m) == ship_sum_y(b, s, dt, m),
    decreases m,
{
    if m > 0 {
        lemma_ship_sum_position_only(a, b, s, dt, m - 1);
    }
}

/// One whole tick over the particle store. With no ship, every velocity
/// leaves the tick clamped to 100 units per second per axis; the ship field
/// is applied after the clamp, so a particle within its reach may leave
/// faster until the next tick's clamp.
pub fn tick(
    balls: &mut Vec<WaterBall>,
    ship: Option<Ship>,
    dt: i64,
    x_extent: i64,
    y_extent: i64,
)
    requires
        balls_in_range(old(balls)@),
        old(balls)@.len() <= COUNT_LIMIT,
        0 <= dt <= DT_LIMIT,
        -POS_LIMIT <= x_extent <= POS_LIMIT,
        -POS_LIMIT <= y_extent <= POS_LIMIT,
        (match ship {
            Option::Some(sh) => ship_in_range(sh),
            Option::None => true,
        }),
    ensures
        final(balls)@.len() == old(balls)@.len(),
        forall|i: int|
            0 <= i < final(balls)@.len() ==> {
                let vx = tick_vel_x(old(balls)@, i, ship, dt as int, x_extent as int);
                let vy = tick_vel_y(old(balls)@, i, ship, dt as int, y_extent as int);
                &&& (#[trigger] final(balls)@[i]).velocity.x == vx
                &&& final(balls)@[i].velocity.y == vy
                &&& final(balls)@[i].x == next_pos(old(balls)@[i].x as int, vx, dt as int)
                &&& final(balls)@[i].y == next_pos(old(balls)@[i].y as int, vy, dt as int)
            },
        ship.is_none() ==> forall|i: int|
            0 <= i < final(balls)@.len() ==> {
                &&& -VEL_LIMIT <= (#[trigger] final(balls)@[i]).velocity.x <= VEL_LIMIT
                &&& -VEL_LIMIT <= final(balls)@[i].velocity.y <= VEL_LIMIT
            },
        forall|i: int|
            0 <= i < final(balls)@.len() ==> {
                &&& -TICK_VEL_LIMIT <= (#[trigger] final(balls)@[i]).velocity.x <= TICK_VEL_LIMIT
                &&& -TICK_VEL_LIMIT <= final(balls)@[i].velocity.y <= TICK_VEL_LIMIT
            },
        balls_in_range(final(balls)@),
{
    let ghost snap = old(balls)@;
    update_velocity(balls, dt, x_extent, y_extent);
    proof {
        assert forall|i: int| 0 <= i < balls@.len() implies crate::water::ball_in_range(
            #[trigger] balls@[i],
        ) by {
            assert(balls@[i].x == snap[i].x && balls@[i].y == snap[i].y);
        }
    }
    let ghost mid = balls@;
    if let Option::Some(sh) = ship {
        ship_repells_water_balls(balls, sh, dt);
        proof {
            assert forall|i: int| 0 <= i < balls@.len() implies (#[trigger] balls@[i]).velocity.x
                == tick_vel_x(snap, i, ship, dt as int, x_extent as int) && balls@[i].velocity.y
                == tick_vel_y(snap, i, ship, dt as int, y_extent as int) by {
                lemma_ship_sum_position_only(
                    mid[i],
                    snap[i],
                    sh,
                    dt as int,
                    SHIP_GRID_LEN as int,
                );
            }
        }
    }
    proof {
        assert forall|i: int| 0 <= i < balls@.len() implies {
            &&& -TICK_VEL_LIMIT <= (#[trigger] balls@[i]).velocity.x <= TICK_VEL_LIMIT
            &&& -TICK_VEL_LIMIT <= balls@[i].velocity.y <= TICK_VEL_LIMIT
        } by {
            if let Option::Some(sh) = ship {
                crate::ship::lemma_ship_sum_bound(snap[i], sh, dt as int, SHIP_GRID_LEN as int);
                assert(SHIP_GRID_LEN * SHIP_TERM_MAX == 864_000_000_000_000int)
                    by (nonlinear_arith)
                    requires
                        SHIP_GRID_LEN == 144,
                        SHIP_TERM_MAX == 6_000_000_000_000,
                ;
            }
        }
    }
    water_movement(balls, dt);
}

} // verus!
