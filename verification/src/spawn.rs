//! Input-driven mutation of the particle set: mapping pointer coordinates
//! into the simulation frame, spawning one particle per primary click, and
//! removing every particle near a secondary click.
//!
//! Click events are edge-triggered by the host: a call receives at most one
//! primary and one secondary click, already reduced to pointer coordinates.

use vstd::prelude::*;

use crate::fixed::tdiv;
use crate::params::POS_LIMIT;
use crate::params::PTR_LIMIT;
use crate::params::DESPAWN_RANGE_SQ;
use crate::params::DEFAULT_VEL;
use crate::water::WaterBall;
use crate::water::Velocity2;
use crate::water::ball_in_range;
use crate::water::balls_in_range;
use crate::forces::dist_sq;

verus! {

/// A secondary click at `(cx, cy)` removes `b` when the particle lies
/// strictly within 20 units of the click.
pub open spec fn despawn_hit(b: WaterBall, cx: int, cy: int) -> bool {
    dist_sq(b.x as int, b.y as int, cx, cy) < DESPAWN_RANGE_SQ
}

/// The particles that survive a secondary click at `(cx, cy)`, in order.
pub open spec fn surviving(s: Seq<WaterBall>, cx: int, cy: int) -> Seq<WaterBall> {
    s.filter(|b: WaterBall| !despawn_hit(b, cx, cy))
}

/// Maps a pointer position from device coordinates (milli-pixels) to
/// simulation coordinates: the viewport centre moves to the origin.
pub fn cursor_to_sim(cx: i64, cy: i64, width: i64, height: i64) -> (r: (i64, i64))
    requires
        -PTR_LIMIT <= cx <= PTR_LIMIT,
        -PTR_LIMIT <= cy <= PTR_LIMIT,
        0 <= width <= POS_LIMIT,
        0 <= height <= POS_LIMIT,
    ensures
        r.0 == cx - tdiv(width as int, 2),
        r.1 == cy - tdiv(height as int, 2),
        -POS_LIMIT <= r.0 <= POS_LIMIT,
        -POS_LIMIT <= r.1 <= POS_LIMIT,
{
    (cx - width / 2, cy - height / 2)
}

/// Creates one particle at `(x, y)` with the default velocity and appends it
/// to the store. The position is not validated against the viewport: a click
/// mapped off-screen spawns off-screen, as the input contract allows.
pub fn spawn_water_ball(balls: &mut Vec<WaterBall>, x: i64, y: i64)
    requires
        -POS_LIMIT <= x <= POS_LIMIT,
        -POS_LIMIT <= y <= POS_LIMIT,
        old(balls)@.len() < usize::MAX,
    ensures
        final(balls)@ == old(balls)@.push(
            WaterBall { x, y, velocity: Velocity2 { x: DEFAULT_VEL, y: DEFAULT_VEL } },
        ),
{
    balls.push(WaterBall { x, y, velocity: Velocity2 { x: DEFAULT_VEL, y: DEFAULT_VEL } });
}

/// Removes every particle strictly within 20 units of `(cx, cy)` — zero, one
/// or many in a single call — and keeps the order of the survivors.
pub fn despawn_water_balls(balls: &mut Vec<WaterBall>, cx: i64, cy: i64)
    requires
        balls_in_range(old(balls)@),
        -POS_LIMIT <= cx <= POS_LIMIT,
        -POS_LIMIT <= cy <= POS_LIMIT,
    ensures
        final(balls)@ == surviving(old(balls)@, cx as int, cy as int),
        balls_in_range(final(balls)@),
{
    let ghost snap = old(balls)@;
    let n = balls.len();
    let mut kept: Vec<WaterBall> = Vec::new();
    let mut j: usize = 0;
    proof {
        reveal(Seq::filter);
        assert(snap.take(0).filter(|b: WaterBall| !despawn_hit(b, cx as int, cy as int))
            =~= Seq::<WaterBall>::empty());
    }
    while j < n
        invariant
            n == balls@.len(),
            n == snap.len(),
            balls@ == snap,
            balls_in_range(snap),
            balls_in_range(kept@),
            -POS_LIMIT <= cx <= POS_LIMIT,
            -POS_LIMIT <= cy <= POS_LIMIT,
            j <= n,
            kept@ == snap.take(j as int).filter(
                |b: WaterBall| !despawn_hit(b, cx as int, cy as int),
            ),
        decreases n - j,
    {
        let ghost pred = |b: WaterBall| !despawn_hit(b, cx as int, cy as int);
        let p = balls[j];
        assert(ball_in_range(snap[j as int]));
        let dx: i128 = p.x as i128 - cx as i128;
        let dy: i128 = p.y as i128 - cy as i128;
        assert(dx * dx >= 0 && dy * dy >= 0
            && dx * dx + dy * dy <= 100_000_000_000_000_000_000_000_000_000_000int)
            by (nonlinear_arith)
            requires
                -4_000_000_000_000_000 <= dx <= 4_000_000_000_000_000,
                -4_000_000_000_000_000 <= dy <= 4_000_000_000_000_000,
        ;
        let d2: i128 = dx * dx + dy * dy;
        if d2 >= DESPAWN_RANGE_SQ as i128 {
            kept.push(p);
        }
        proof {
            assert(snap.take(j + 1).drop_last() =~= snap.take(j as int));
            assert(snap.take(j + 1).last() == snap[j as int]);
            reveal(Seq::filter);
            assert(kept@ == snap.take(j + 1).filter(pred));
        }
        j += 1;
    }
    proof {
        assert(snap.take(n as int) =~= snap);
    }
    *balls = kept;
}

/// One click-handling step, both buttons edge-triggered by the host. A
/// primary click spawns one particle at the mapped pointer position; a
/// secondary click removes every existing particle within 20 units of the
/// mapped position. Both positions are in device coordinates. Removal sees
/// only the particles that existed before the call, as the host's deferred
/// mutation does.
pub fn mouse_button_input(
    balls: &mut Vec<WaterBall>,
    primary: Option<(i64, i64)>,
    secondary: Option<(i64, i64)>,
    width: i64,
    height: i64,
)
    requires
        balls_in_range(old(balls)@),
        old(balls)@.len() < usize::MAX,
        (match primary {
            Option::Some(c) => -PTR_LIMIT <= c.0 <= PTR_LIMIT && -PTR_LIMIT <= c.1 <= PTR_LIMIT,
            Option::None => true,
        }),
        (match secondary {
            Option::Some(c) => -PTR_LIMIT <= c.0 <= PTR_LIMIT && -PTR_LIMIT <= c.1 <= PTR_LIMIT,
            Option::None => true,
        }),
        0 <= width <= POS_LIMIT,
        0 <= height <= POS_LIMIT,
    ensures
        final(balls)@ == {
            let after_removal = match secondary {
                Option::Some(c) => surviving(
                    old(balls)@,
                    c.0 - tdiv(width as int, 2),
                    c.1 - tdiv(height as int, 2),
                ),
                Option::None => old(balls)@,
            };
            match primary {
                Option::Some(c) => after_removal.push(
                    WaterBall {
                        x: (c.0 - tdiv(width as int, 2)) as i64,
                        y: (c.1 - tdiv(height as int, 2)) as i64,
                        velocity: Velocity2 { x: DEFAULT_VEL, y: DEFAULT_VEL },
                    },
                ),
                Option::None => after_removal,
            }
        },
        balls_in_range(final(balls)@),
{
    if let Option::Some(c) = secondary {
        let (sx, sy) = cursor_to_sim(c.0, c.1, width, height);
        despawn_water_balls(balls, sx, sy);
        proof {
            balls@.lemma_filter_len(|b: WaterBall| !despawn_hit(b, sx as int, sy as int));
            old(balls)@.lemma_filter_len(
                |b: WaterBall| !despawn_hit(b, sx as int, sy as int),
            );
        }
    }
    if let Option::Some(c) = primary {
        let (px, py) = cursor_to_sim(c.0, c.1, width, height);
        spawn_water_ball(balls, px, py);
    }
}

/// Relies on `rand::Rng::gen_range` over a half-open integer range: the
/// sample lies in `[lo, hi)`, and the call panics only on an empty range.
/// Drawn from the thread-local generator, so nothing more is assumed of
/// the value.
#[verifier::external_body]
fn sample_range(lo: i64, hi: i64) -> (r: i64)
    requires
        lo < hi,
    ensures
        lo <= r < hi,
{
    let mut rng = rand::thread_rng();
    rand::Rng::gen_range(&mut rng, lo..hi)
}

/// The startup batch: `count` particles with positions sampled uniformly
/// inside the boundary half-extents, each with the default velocity — the
/// same fixed default a click-spawned particle receives.
pub fn setup_water_balls(count: usize, x_extent: i64, y_extent: i64) -> (balls: Vec<WaterBall>)
    requires
        0 < x_extent <= POS_LIMIT,
        0 < y_extent <= POS_LIMIT,
    ensures
        balls@.len() == count,
        forall|i: int|
            0 <= i < balls@.len() ==> {
                &&& -x_extent <= (#[trigger] balls@[i]).x < x_extent
                &&& -y_extent <= balls@[i].y < y_extent
                &&& balls@[i].velocity == (Velocity2 { x: DEFAULT_VEL, y: DEFAULT_VEL })
            },
        balls_in_range(balls@),
{
    let mut balls: Vec<WaterBall> = Vec::new();
    let mut made: usize = 0;
    while made < count
        invariant
            0 < x_extent <= POS_LIMIT,
            0 < y_extent <= POS_LIMIT,
            made <= count,
            balls@.len() == made,
            forall|i: int|
                0 <= i < balls@.len() ==> {
                    &&& -x_extent <= (#[trigger] balls@[i]).x < x_extent
                    &&& -y_extent <= balls@[i].y < y_extent
                    &&& balls@[i].velocity == (Velocity2 { x: DEFAULT_VEL, y: DEFAULT_VEL })
                },
        decreases count - made,
    {
        let x = sample_range(-x_extent, x_extent);
        let y = sample_range(-y_extent, y_extent);
        balls.push(WaterBall { x, y, velocity: Velocity2 { x: DEFAULT_VEL, y: DEFAULT_VEL } });
        made += 1;
    }
    balls
}

} // verus!
