use beat_pong::paddle::{CollisionPrediction, PaddleSystem};
use beat_pong::state::{Ball, Paddle, Side};
use beat_pong::units::VEL_LIMIT;

fn left_paddle() -> Paddle {
    Paddle { side: Side::Left, x: 20_000, y: 50_000, velocity: 0, width: 10_000, height: 40_000 }
}

#[test]
fn predict_left_paddle_head_on() {
    // Ball at (50, 50) moving at (-100, 0) against a Left paddle of width 10,
    // height 40 at (20, 50), radius 5: the inflated right boundary sits at
    // 20 + 10 + 5.5 = 35.5, so impact comes after (35.5 - 50) / -100 = 0.145
    // seconds, at y = 50.
    let ball = Ball { x: 50_000, y: 50_000, vx: -100_000, vy: 0, radius: 5_000 };
    let prediction = CollisionPrediction::new(&left_paddle(), &ball);
    assert_eq!(prediction.time_until_collision, 145);
    assert_eq!(prediction.x, 35_500);
    assert_eq!(prediction.y, 50_000);
    assert_eq!(prediction.intersection_velocity, 0);
}

#[test]
fn predict_zero_normal_velocity_gives_zero_steering() {
    // A ball sliding parallel to a Left paddle never crosses its boundary:
    // no divide-by-zero artifact, just zero steering and zero time.
    let ball = Ball { x: 50_000, y: 50_000, vx: 0, vy: 5_000, radius: 5_000 };
    let prediction = CollisionPrediction::new(&left_paddle(), &ball);
    assert_eq!(prediction.intersection_velocity, 0);
    assert_eq!(prediction.time_until_collision, 0);
    assert_eq!(prediction.x, 50_000);
    assert_eq!(prediction.y, 50_000);
}

#[test]
fn predict_is_deterministic() {
    let ball = Ball { x: 47_123, y: 61_007, vx: -93_011, vy: 12_345, radius: 5_000 };
    let first = CollisionPrediction::new(&left_paddle(), &ball);
    let second = CollisionPrediction::new(&left_paddle(), &ball);
    assert_eq!(first, second);
}

#[test]
fn predict_top_paddle_projects_lateral_position() {
    // Top paddle at (30, 90), ball at (20, 50) moving (10, 50): the inflated
    // bottom boundary is 90 - 5.5 = 84.5, reached after 0.690 s, where the
    // ball's x is 20 + 10 * 0.690 = 26.9; the paddle must cover -3.1 in that
    // time, i.e. -4492 fixed-point units per second after truncation.
    let paddle = Paddle {
        side: Side::Top,
        x: 30_000,
        y: 90_000,
        velocity: 0,
        width: 10_000,
        height: 40_000,
    };
    let ball = Ball { x: 20_000, y: 50_000, vx: 10_000, vy: 50_000, radius: 5_000 };
    let prediction = CollisionPrediction::new(&paddle, &ball);
    assert_eq!(prediction.time_until_collision, 690);
    assert_eq!(prediction.y, 84_500);
    assert_eq!(prediction.x, 26_900);
    assert_eq!(prediction.intersection_velocity, -4_492);
}

#[test]
fn predict_steering_saturates_at_velocity_limit() {
    // One time unit to impact and a huge lateral gap: the raw quotient
    // overshoots the velocity band and saturates at VEL_LIMIT.
    let paddle = Paddle { side: Side::Left, x: 20_000, y: 0, velocity: 0, width: 10_000, height: 40_000 };
    let ball = Ball { x: 36_500, y: 50_000, vx: -1_000_000, vy: 1_000_000_000, radius: 5_000 };
    let prediction = CollisionPrediction::new(&paddle, &ball);
    assert_eq!(prediction.time_until_collision, 1);
    assert_eq!(prediction.intersection_velocity, VEL_LIMIT);
}

#[test]
fn controller_steers_only_paddles_the_ball_approaches() {
    let right = Paddle {
        side: Side::Right,
        x: 70_000,
        y: 30_000,
        velocity: 77,
        width: 10_000,
        height: 40_000,
    };
    let left = Paddle { side: Side::Left, x: 20_000, y: 30_000, velocity: 0, width: 10_000, height: 40_000 };
    let ball = Ball { x: 50_000, y: 60_000, vx: -100_000, vy: 0, radius: 5_000 };
    let mut paddles = vec![left, right];
    let system = PaddleSystem;
    system.run(&mut paddles, &ball);
    // The Left paddle intercepts at y = 60 after 0.145 s: it must cover 30
    // in 0.145 s, truncating to 206_896 units per second.
    assert_eq!(paddles[0].velocity, 206_896);
    // The Right paddle sees the ball moving away and is parked.
    assert_eq!(paddles[1].velocity, 0);
    // Nothing else about the paddles changes.
    assert_eq!(paddles[1].x, 70_000);
    assert_eq!(paddles[1].y, 30_000);
}
