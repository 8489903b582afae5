use beat_pong::move_paddle::MovePaddleSystem;
use beat_pong::state::{Arena, Ball, Paddle, Side};
use beat_pong::winner::WinnerSystem;

fn arena() -> Arena {
    Arena { width: 100_000, height: 100_000 }
}

#[test]
fn movement_integrates_velocity_over_the_step() {
    let paddle = Paddle { side: Side::Left, x: 0, y: 50_000, velocity: 2_000, width: 10_000, height: 40_000 };
    let mut paddles = vec![paddle];
    let system = MovePaddleSystem;
    system.run(&mut paddles, &arena(), 500);
    assert_eq!(paddles[0].y, 51_000);
    assert_eq!(paddles[0].x, 0);
    assert_eq!(paddles[0].velocity, 2_000);
}

#[test]
fn movement_clamps_to_the_arena() {
    let runaway_up = Paddle { side: Side::Right, x: 90_000, y: 50_000, velocity: 1_000_000_000, width: 10_000, height: 40_000 };
    let runaway_down = Paddle { side: Side::Right, x: 90_000, y: 50_000, velocity: -1_000_000_000, width: 10_000, height: 40_000 };
    let mut paddles = vec![runaway_up, runaway_down];
    let system = MovePaddleSystem;
    system.run(&mut paddles, &arena(), 3_600_000);
    assert_eq!(paddles[0].y, 60_000);
    assert_eq!(paddles[1].y, 0);
}

#[test]
fn movement_of_top_and_bottom_paddles_is_horizontal() {
    let paddle = Paddle { side: Side::Top, x: 40_000, y: 90_000, velocity: -3_000, width: 40_000, height: 10_000 };
    let mut paddles = vec![paddle];
    let system = MovePaddleSystem;
    system.run(&mut paddles, &arena(), 1_000);
    assert_eq!(paddles[0].x, 37_000);
    assert_eq!(paddles[0].y, 90_000);
}

#[test]
fn score_on_left_edge_resets_to_the_middle() {
    let mut ball = Ball { x: 4_000, y: 70_000, vx: -50_000, vy: 3_000, radius: 5_000 };
    let system = WinnerSystem;
    let scored = system.run(&mut ball, &arena());
    assert!(scored);
    assert_eq!(ball.x, 50_000);
    assert_eq!(ball.vx, 50_000);
    assert_eq!(ball.y, 70_000);
    assert_eq!(ball.vy, 3_000);
}

#[test]
fn score_on_right_edge_resets_to_the_middle() {
    let mut ball = Ball { x: 96_000, y: 30_000, vx: 80_000, vy: 0, radius: 5_000 };
    let system = WinnerSystem;
    let scored = system.run(&mut ball, &arena());
    assert!(scored);
    assert_eq!(ball.x, 50_000);
    assert_eq!(ball.vx, -80_000);
}

#[test]
fn no_score_in_open_play() {
    let mut ball = Ball { x: 50_000, y: 50_000, vx: 80_000, vy: -2_000, radius: 5_000 };
    let system = WinnerSystem;
    let scored = system.run(&mut ball, &arena());
    assert!(!scored);
    assert_eq!(ball, Ball { x: 50_000, y: 50_000, vx: 80_000, vy: -2_000, radius: 5_000 });
}
