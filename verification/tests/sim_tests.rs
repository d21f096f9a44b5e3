//! End-to-end checks of the simulation passes on concrete values, in
//! milli-units: one world unit is 1000, one second is 1000.

use water_balls::forces::update_velocity;
use water_balls::forces::water_movement;
use water_balls::ship::keyboard_controls_ship;
use water_balls::ship::ship_repells_water_balls;
use water_balls::ship::Ship;
use water_balls::spawn::cursor_to_sim;
use water_balls::spawn::despawn_water_balls;
use water_balls::spawn::mouse_button_input;
use water_balls::spawn::setup_water_balls;
use water_balls::spawn::spawn_water_ball;
use water_balls::tick::tick;
use water_balls::water::view_half_extents;
use water_balls::water::Velocity2;
use water_balls::water::WaterBall;

fn ball(x: i64, y: i64, vx: i64, vy: i64) -> WaterBall {
    WaterBall { x, y, velocity: Velocity2 { x: vx, y: vy } }
}

#[test]
fn default_velocity_is_one_unit_per_second() {
    let v = Velocity2::default();
    assert_eq!(v.x, 1000);
    assert_eq!(v.y, 1000);
}

#[test]
fn view_half_extents_of_800_by_600() {
    let (x, y) = view_half_extents(800_000, 600_000);
    assert_eq!(x, 380_000);
    assert_eq!(y, 280_000);
}

#[test]
fn cursor_maps_centre_click_to_origin() {
    // An 800x600 viewport: a click at device (400, 300) is the centre.
    let (x, y) = cursor_to_sim(400_000, 300_000, 800_000, 600_000);
    assert_eq!(x, 0);
    assert_eq!(y, 0);
}

#[test]
fn cursor_maps_corner_click() {
    let (x, y) = cursor_to_sim(0, 0, 800_000, 600_000);
    assert_eq!(x, -400_000);
    assert_eq!(y, -300_000);
}

#[test]
fn despawn_removes_exactly_the_balls_within_twenty_units() {
    // Balls at distances 0, 15 and 25 units from the click at the origin.
    let mut balls = vec![ball(0, 0, 0, 0), ball(15_000, 0, 0, 0), ball(25_000, 0, 0, 0)];
    despawn_water_balls(&mut balls, 0, 0);
    assert_eq!(balls.len(), 1);
    assert_eq!(balls[0].x, 25_000);
}

#[test]
fn despawn_keeps_a_ball_at_exactly_twenty_units() {
    let mut balls = vec![ball(20_000, 0, 0, 0)];
    despawn_water_balls(&mut balls, 0, 0);
    assert_eq!(balls.len(), 1);
}

#[test]
fn spawn_appends_one_ball_with_default_velocity() {
    let mut balls = vec![ball(5, 6, 7, 8)];
    spawn_water_ball(&mut balls, -123, 456);
    assert_eq!(balls.len(), 2);
    assert_eq!(balls[1], ball(-123, 456, 1000, 1000));
    assert_eq!(balls[0], ball(5, 6, 7, 8));
}

#[test]
fn click_handling_spawns_then_removes_preexisting_only() {
    // Primary and secondary click at the centre of an 800x600 viewport:
    // the ball at the origin is removed, the spawned ball is not.
    let mut balls = vec![ball(0, 0, 0, 0), ball(100_000, 0, 0, 0)];
    mouse_button_input(
        &mut balls,
        Some((400_000, 300_000)),
        Some((400_000, 300_000)),
        800_000,
        600_000,
    );
    assert_eq!(balls.len(), 2);
    assert_eq!(balls[0], ball(100_000, 0, 0, 0));
    assert_eq!(balls[1], ball(0, 0, 1000, 1000));
}

#[test]
fn setup_batch_spawns_inside_the_extents() {
    let balls = setup_water_balls(500, 380_000, 280_000);
    assert_eq!(balls.len(), 500);
    for b in &balls {
        assert!(-380_000 <= b.x && b.x < 380_000);
        assert!(-280_000 <= b.y && b.y < 280_000);
        assert_eq!(b.velocity, Velocity2 { x: 1000, y: 1000 });
    }
}

#[test]
fn batch_positions_are_not_all_alike() {
    // Two hundred samples on a wide range: all-equal coordinates would mean
    // the sampler ignores its range.
    let balls = setup_water_balls(200, 380_000, 280_000);
    let first = (balls[0].x, balls[0].y);
    assert!(balls.iter().any(|b| (b.x, b.y) != first));
}

#[test]
fn no_force_at_exactly_the_cutoff_distance() {
    // 300 units apart: squared distance exactly 90000 square units, so the
    // only velocity change is the damping.
    let mut balls = vec![ball(0, 0, 1000, 1000), ball(300_000, 0, 1000, 1000)];
    update_velocity(&mut balls, 1000, 1_000_000_000, 1_000_000_000);
    assert_eq!(balls[0].velocity, Velocity2 { x: 999, y: 999 });
    assert_eq!(balls[1].velocity, Velocity2 { x: 999, y: 999 });
}

#[test]
fn repulsion_just_inside_the_cutoff_distance() {
    // One milli-unit closer than the cutoff: a nonzero push, apart.
    let mut balls = vec![ball(0, 0, 1000, 1000), ball(299_999, 0, 1000, 1000)];
    update_velocity(&mut balls, 1000, 1_000_000_000, 1_000_000_000);
    assert_eq!(balls[0].velocity, Velocity2 { x: -2330, y: 999 });
    assert_eq!(balls[1].velocity, Velocity2 { x: 4328, y: 999 });
}

#[test]
fn pairwise_push_is_opposite_and_equal_before_clamp() {
    // 100 units apart, at rest: each is pushed away from the other by the
    // same raw magnitude, opposite directions.
    let mut balls = vec![ball(0, 0, 0, 0), ball(100_000, 0, 0, 0)];
    update_velocity(&mut balls, 1000, 1_000_000_000, 1_000_000_000);
    assert_eq!(balls[0].velocity, Velocity2 { x: -9990, y: 0 });
    assert_eq!(balls[1].velocity, Velocity2 { x: 9990, y: 0 });
    assert_eq!(balls[0].velocity.x, -balls[1].velocity.x);
}

#[test]
fn coincident_balls_exert_no_force_on_each_other() {
    // The degenerate zero-distance pair: the clamped divisor keeps the
    // arithmetic defined, and the zero numerator gives a zero push.
    let mut balls = vec![ball(0, 0, 1000, 1000), ball(0, 0, 1000, 1000)];
    update_velocity(&mut balls, 1000, 1_000_000_000, 1_000_000_000);
    assert_eq!(balls[0].velocity, Velocity2 { x: 999, y: 999 });
    assert_eq!(balls[1].velocity, Velocity2 { x: 999, y: 999 });
}

#[test]
fn boundary_pushes_back_past_the_low_edge() {
    // 10 units past the left boundary: a strictly positive x correction.
    let mut balls = vec![ball(-390_000, 0, 0, 0)];
    update_velocity(&mut balls, 1000, 380_000, 280_000);
    assert_eq!(balls[0].velocity.x, 9990);
    assert_eq!(balls[0].velocity.y, 0);
    assert!(balls[0].velocity.x > 0);
}

#[test]
fn boundary_pushes_back_past_the_high_edge() {
    let mut balls = vec![ball(390_000, 0, 0, 0)];
    update_velocity(&mut balls, 1000, 380_000, 280_000);
    assert_eq!(balls[0].velocity.x, -9990);
    assert!(balls[0].velocity.x < 0);
}

#[test]
fn boundary_applies_to_the_y_axis_too() {
    let mut balls = vec![ball(0, -290_000, 0, 0), ball(0, 290_000, 0, 0)];
    update_velocity(&mut balls, 1000, 380_000, 280_000);
    assert!(balls[0].velocity.y > 0);
    assert!(balls[1].velocity.y < 0);
}

#[test]
fn no_correction_inside_the_boundary() {
    let mut balls = vec![ball(379_999, 279_999, 0, 0)];
    update_velocity(&mut balls, 1000, 380_000, 280_000);
    assert_eq!(balls[0].velocity, Velocity2 { x: 0, y: 0 });
}

#[test]
fn velocities_stay_clamped_under_extreme_forces() {
    // One milli-unit apart with the largest frame time: the raw push is
    // enormous, the stored velocity still within 100 units per second.
    let mut balls = vec![
        ball(0, 0, 0, 0),
        ball(1, 0, 0, 0),
        ball(0, 1, 0, 0),
        ball(-500_000_000, 0, 100_000, -100_000),
    ];
    update_velocity(&mut balls, 60_000, 380_000, 280_000);
    for b in &balls {
        assert!(b.velocity.x.abs() <= 100_000);
        assert!(b.velocity.y.abs() <= 100_000);
    }
}

#[test]
fn whole_tick_without_ship_keeps_the_clamp() {
    let mut balls = vec![ball(0, 0, 0, 0), ball(1, 1, 0, 0), ball(500_000, 0, 99_000, 0)];
    tick(&mut balls, None, 60_000, 380_000, 280_000);
    for b in &balls {
        assert!(b.velocity.x.abs() <= 100_000);
        assert!(b.velocity.y.abs() <= 100_000);
    }
}

#[test]
fn isolated_ball_decays_to_rest() {
    // No forces: each tick multiplies the velocity by 0.999, strictly
    // shrinking it until the fixed point at zero.
    let mut balls = vec![ball(0, 0, 1000, -1000)];
    let mut prev = (balls[0].velocity.x, balls[0].velocity.y);
    for _ in 0..5000 {
        tick(&mut balls, None, 16, 380_000, 280_000);
        let cur = (balls[0].velocity.x, balls[0].velocity.y);
        if prev.0 != 0 {
            assert!(cur.0.abs() < prev.0.abs());
        } else {
            assert_eq!(cur.0, 0);
        }
        if prev.1 != 0 {
            assert!(cur.1.abs() < prev.1.abs());
        } else {
            assert_eq!(cur.1, 0);
        }
        prev = cur;
    }
    assert_eq!(balls[0].velocity, Velocity2 { x: 0, y: 0 });
}

#[test]
fn one_damping_step_is_exactly_point_nine_nine_nine() {
    let mut balls = vec![ball(0, 0, 100_000, -100_000)];
    tick(&mut balls, None, 16, 380_000, 280_000);
    assert_eq!(balls[0].velocity, Velocity2 { x: 99_900, y: -99_900 });
}

#[test]
fn movement_advances_position_by_velocity_times_time() {
    // Half a second at (100, -50) units per second: (50, -25) units moved.
    let mut balls = vec![ball(0, 0, 100_000, -50_000)];
    water_movement(&mut balls, 500);
    assert_eq!(balls[0].x, 50_000);
    assert_eq!(balls[0].y, -25_000);
    assert_eq!(balls[0].velocity, Velocity2 { x: 100_000, y: -50_000 });
}

#[test]
fn ship_grid_reaches_a_ball_far_from_its_centre() {
    // The ball sits exactly on the sample point of grid step (-4, -9), at
    // 98.5 units from the ship's centre — far beyond one point's 40-unit
    // radius. Neighbouring grid points still push it, away from the hull.
    let ship = Ship { x: 0, y: 0, fx: 0, fy: 1000 };
    let bx: i64 = -40_000;
    let by: i64 = -90_000;
    assert!(bx * bx + by * by > 1_600_000_000);
    let mut balls = vec![ball(bx, by, 0, 0)];
    ship_repells_water_balls(&mut balls, ship, 16);
    assert_eq!(balls[0].velocity, Velocity2 { x: -634_871, y: -634_871 });
    assert_eq!(balls[0].x, bx);
    assert_eq!(balls[0].y, by);
}

#[test]
fn ship_field_skips_a_distant_ball() {
    let ship = Ship { x: 0, y: 0, fx: 0, fy: 1000 };
    let mut balls = vec![ball(500_000, 500_000, 123, -456)];
    ship_repells_water_balls(&mut balls, ship, 16);
    assert_eq!(balls[0].velocity, Velocity2 { x: 123, y: -456 });
}

#[test]
fn steering_moves_the_ship_along_its_axes() {
    let ship = Ship { x: 0, y: 0, fx: 0, fy: 1000 };
    let fwd = keyboard_controls_ship(ship, true, false, false, false, 1000);
    assert_eq!((fwd.x, fwd.y), (0, 200_000));
    let back = keyboard_controls_ship(ship, false, true, false, false, 1000);
    assert_eq!((back.x, back.y), (0, -100_000));
    let left = keyboard_controls_ship(ship, false, false, true, false, 1000);
    assert_eq!((left.x, left.y), (-200_000, 0));
    let right = keyboard_controls_ship(ship, false, false, false, true, 1000);
    assert_eq!((right.x, right.y), (200_000, 0));
    assert_eq!((right.fx, right.fy), (0, 1000));
}

#[test]
fn tick_applies_ship_push_after_the_clamp() {
    // A ball resting on a grid point's offset: the velocity pass leaves it
    // damped to zero, then the ship field pushes it past the clamp until
    // the next tick.
    let ship = Ship { x: 0, y: 0, fx: 0, fy: 1000 };
    let mut balls = vec![ball(-40_000, -90_000, 0, 0)];
    tick(&mut balls, Some(ship), 16, 380_000, 280_000);
    assert_eq!(balls[0].velocity, Velocity2 { x: -634_871, y: -634_871 });
    // The position pass then uses the pushed velocity: 16 ms of it.
    assert_eq!(balls[0].x, -40_000 + 16 * -634_871 / 1000);
    assert_eq!(balls[0].y, -90_000 + 16 * -634_871 / 1000);
}

#[test]
fn empty_store_ticks_without_effect() {
    let mut balls: Vec<WaterBall> = Vec::new();
    tick(&mut balls, None, 16, 380_000, 280_000);
    assert!(balls.is_empty());
}
