use beat_pong::beats::Intervals;
use beat_pong::bounce::{adjust_velocity, fixed_coordinate, BounceSystem};
use beat_pong::state::{Arena, Ball, Paddle, Side};
use beat_pong::units::VEL_LIMIT;

fn arena() -> Arena {
    Arena { width: 100_000, height: 100_000 }
}

const PAD: i64 = 15_000;

#[test]
fn wall_bounce_reflects_then_rescales_to_the_beat() {
    // Ball resting on the bottom wall moving down: the vertical component
    // flips, then the whole velocity is rescaled so the ball reaches the
    // inset top target (85) in the popped interval (0.5 s): 80 / 0.5 = 160.
    let mut ball = Ball { x: 50_000, y: 5_000, vx: 0, vy: -10_000, radius: 5_000 };
    let mut queue = Intervals::new(&vec![0, 500]);
    let paddles: Vec<Paddle> = Vec::new();
    let engine = BounceSystem;
    let bounces = engine.run(&mut ball, &paddles, &mut queue, &arena(), PAD);
    assert_eq!(bounces, 1);
    assert_eq!(ball.vx, 0);
    assert_eq!(ball.vy, 160_000);
    assert_eq!(ball.x, 50_000);
    assert_eq!(ball.y, 5_000);
    assert_eq!(queue.len(), 0);
}

#[test]
fn paddle_bounce_with_exhausted_queue_keeps_reflected_velocity() {
    // The fallback interval of an empty queue is zero, which disables the
    // rescale: the velocity keeps its just-reflected value, and exactly one
    // component flips.
    let mut ball = Ball { x: 30_000, y: 50_000, vx: -100_000, vy: 0, radius: 5_000 };
    let paddle = Paddle { side: Side::Left, x: 20_000, y: 30_000, velocity: 0, width: 10_000, height: 40_000 };
    let mut queue = Intervals::new(&vec![]);
    let engine = BounceSystem;
    let bounces = engine.run(&mut ball, &vec![paddle], &mut queue, &arena(), PAD);
    assert_eq!(bounces, 1);
    assert_eq!(ball.vx, 100_000);
    assert_eq!(ball.vy, 0);
}

#[test]
fn second_pass_without_position_change_does_not_double() {
    // Reflect and rescale once; running the engine again from the same
    // position must reflect nothing: the direction gate sees the ball moving
    // away from the paddle, so velocity and queue stay untouched.
    let mut ball = Ball { x: 30_000, y: 50_000, vx: -100_000, vy: 0, radius: 5_000 };
    let paddle = Paddle { side: Side::Left, x: 20_000, y: 30_000, velocity: 0, width: 10_000, height: 40_000 };
    let paddles = vec![paddle];
    let mut queue = Intervals::new(&vec![0, 600]);
    let engine = BounceSystem;
    let first = engine.run(&mut ball, &paddles, &mut queue, &arena(), PAD);
    assert_eq!(first, 1);
    assert_eq!(ball.vx, 91_666);
    assert_eq!(ball.vy, 0);
    let second = engine.run(&mut ball, &paddles, &mut queue, &arena(), PAD);
    assert_eq!(second, 0);
    assert_eq!(ball.vx, 91_666);
    assert_eq!(ball.vy, 0);
    assert_eq!(queue.len(), 0);
}

#[test]
fn free_flight_changes_nothing() {
    let mut ball = Ball { x: 50_000, y: 50_000, vx: 10_000, vy: 10_000, radius: 5_000 };
    let paddle = Paddle { side: Side::Left, x: 0, y: 0, velocity: 0, width: 10_000, height: 10_000 };
    let mut queue = Intervals::new(&vec![0, 500]);
    let engine = BounceSystem;
    let bounces = engine.run(&mut ball, &vec![paddle], &mut queue, &arena(), PAD);
    assert_eq!(bounces, 0);
    assert_eq!(ball, Ball { x: 50_000, y: 50_000, vx: 10_000, vy: 10_000, radius: 5_000 });
    assert_eq!(queue.len(), 1);
}

#[test]
fn ball_bounces_off_left_paddle_in_flight() {
    // Fly the P6-style ball toward the Left paddle in 16-time-unit ticks:
    // it crosses the inflated boundary (35.5) on the tenth tick at x = 34,
    // reflects once, and is rescaled to cross the inset right target (85)
    // in the popped 0.5 s interval: (85 - 34) / 0.5 = 102.
    let paddle = Paddle { side: Side::Left, x: 20_000, y: 30_000, velocity: 0, width: 10_000, height: 40_000 };
    let paddles = vec![paddle];
    let mut ball = Ball { x: 50_000, y: 50_000, vx: -100_000, vy: 0, radius: 5_000 };
    let mut queue = Intervals::new(&vec![0, 500]);
    let engine = BounceSystem;
    let mut bounces = 0;
    for _ in 0..10 {
        ball.x += ball.vx * 16 / 1_000;
        ball.y += ball.vy * 16 / 1_000;
        bounces += engine.run(&mut ball, &paddles, &mut queue, &arena(), PAD);
    }
    assert_eq!(bounces, 1);
    assert_eq!(ball.x, 34_000);
    assert_eq!(ball.vx, 102_000);
    assert_eq!(ball.vy, 0);
}

#[test]
fn fixed_coordinate_picks_the_boundary_crossed_first() {
    // Moving down-right from the centre, both inset targets are 35 away at
    // matching speeds: the x crossing wins the tie and the y coordinate is
    // projected onto the crossing time.
    let target = fixed_coordinate(50_000, 50_000, 10_000, -10_000, &arena(), PAD);
    assert_eq!(target, (85_000, 15_000));
}

#[test]
fn rescale_matches_distance_over_interval() {
    // Distance 35 to the x target, interval 0.7 s: the rescaled component is
    // exactly 35 / 0.7 = 50 units per second, same direction as before.
    let velocity = adjust_velocity(50_000, 50_000, 10_000, 0, &arena(), PAD, 700);
    assert_eq!(velocity, (50_000, 0));
}

#[test]
fn rescale_with_zero_interval_is_disabled() {
    let velocity = adjust_velocity(50_000, 50_000, 10_000, -7_000, &arena(), PAD, 0);
    assert_eq!(velocity, (10_000, -7_000));
}

#[test]
fn rescale_saturates_at_velocity_limit() {
    // A one-time-unit interval across the whole arena overshoots the band
    // and saturates.
    let velocity = adjust_velocity(-1_000_000, 0, 5, 0, &arena(), PAD, 1);
    assert_eq!(velocity.0, VEL_LIMIT);
    assert_eq!(velocity.1, 0);
}
