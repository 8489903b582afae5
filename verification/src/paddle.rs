//! The collision predictor and the predictive paddle controller.
//!
//! Every tick the controller computes, for each paddle, the constant steering
//! velocity that would put the paddle at the ball's predicted arrival point
//! exactly when the ball arrives.  Nothing is carried between ticks: the
//! prediction is a pure function of the current ball and paddle state, so the
//! controller is self-correcting against the bounce engine's tempo rescales.

use crate::geometry::{
    lemma_offset_bound, rect_bottom_spec, rect_left_spec, rect_right_spec, rect_top_spec,
    HitRectangle,
};
use crate::state::{horizontal, Ball, Paddle, Side};
use crate::units::{
    abs_val, clamp_fix, clamp_val, div_fix, div_t, lemma_div_t_mag, COORD_LIMIT, TIME_SCALE,
    VEL_LIMIT,
};
use vstd::arithmetic::div_mod::lemma_div_is_ordered;
use vstd::prelude::*;

verus! {

/// Whether the ball is moving toward the paddle placement on `side`.
pub open spec fn toward_side(side: Side, vx: int, vy: int) -> bool {
    match side {
        Side::Left => vx < 0,
        Side::Right => vx > 0,
        Side::Top => vy > 0,
        Side::Bottom => vy < 0,
    }
}

/// Ball velocity along the paddle's normal axis: the axis the ball must
/// travel along to reach the paddle.
pub open spec fn normal_velocity(paddle: Paddle, ball: Ball) -> int {
    if horizontal(paddle.side) {
        ball.vx as int
    } else {
        ball.vy as int
    }
}

/// Ball velocity along the paddle's movement axis.
pub open spec fn lateral_velocity(paddle: Paddle, ball: Ball) -> int {
    if horizontal(paddle.side) {
        ball.vy as int
    } else {
        ball.vx as int
    }
}

/// Ball position on the paddle's normal axis.
pub open spec fn normal_position(paddle: Paddle, ball: Ball) -> int {
    if horizontal(paddle.side) {
        ball.x as int
    } else {
        ball.y as int
    }
}

/// Ball position on the paddle's movement axis.
pub open spec fn lateral_position(paddle: Paddle, ball: Ball) -> int {
    if horizontal(paddle.side) {
        ball.y as int
    } else {
        ball.x as int
    }
}

/// Paddle position on its own movement axis.
pub open spec fn track_position(paddle: Paddle) -> int {
    if horizontal(paddle.side) {
        paddle.y as int
    } else {
        paddle.x as int
    }
}

/// The hit rectangle boundary the ball meets first on the paddle's normal
/// axis: travelling in the negative direction it reaches the rectangle's far
/// (maximum) boundary, travelling in the positive direction its near
/// (minimum) one.
pub open spec fn approach_boundary(paddle: Paddle, ball: Ball) -> int {
    if horizontal(paddle.side) {
        if ball.vx < 0 {
            rect_right_spec(
                paddle.x as int,
                paddle.width as int,
                paddle.height as int,
                ball.radius as int,
                paddle.side,
            )
        } else {
            rect_left_spec(paddle.x as int, ball.radius as int)
        }
    } else {
        if ball.vy < 0 {
            rect_top_spec(
                paddle.y as int,
                paddle.width as int,
                paddle.height as int,
                ball.radius as int,
                paddle.side,
            )
        } else {
            rect_bottom_spec(paddle.y as int, ball.radius as int)
        }
    }
}

/// Time until the ball's centre crosses the approach boundary, in fixed-point
/// time units.  A resting normal velocity leaves the crossing undefined; the
/// designed substitute is zero.
pub open spec fn predict_time_spec(paddle: Paddle, ball: Ball) -> int {
    if normal_velocity(paddle, ball) == 0 {
        0
    } else {
        div_t(
            (approach_boundary(paddle, ball) - normal_position(paddle, ball)) * TIME_SCALE,
            normal_velocity(paddle, ball),
        )
    }
}

/// Where on the paddle's movement axis the ball will be at the predicted
/// crossing time.
pub open spec fn predict_lateral_spec(paddle: Paddle, ball: Ball) -> int {
    if normal_velocity(paddle, ball) == 0 {
        lateral_position(paddle, ball)
    } else {
        lateral_position(paddle, ball) + div_t(
            lateral_velocity(paddle, ball) * predict_time_spec(paddle, ball),
            TIME_SCALE as int,
        )
    }
}

/// The steering velocity that carries the paddle from its current track
/// position to the predicted impact point in exactly the predicted time,
/// saturated at `VEL_LIMIT`.  A zero time-of-impact (resting normal velocity,
/// or an arrival within less than one time unit) would divide by zero; the
/// designed substitute is zero steering.
pub open spec fn predict_velocity_spec(paddle: Paddle, ball: Ball) -> int {
    if predict_time_spec(paddle, ball) == 0 {
        0
    } else {
        clamp_val(
            div_t(
                (predict_lateral_spec(paddle, ball) - track_position(paddle)) * TIME_SCALE,
                predict_time_spec(paddle, ball),
            ),
            -VEL_LIMIT as int,
            VEL_LIMIT as int,
        )
    }
}

/// Predicted impact x coordinate: the approach boundary for Left and Right
/// paddles, the lateral projection for Top and Bottom ones.
pub open spec fn predict_x_spec(paddle: Paddle, ball: Ball) -> int {
    if normal_velocity(paddle, ball) == 0 {
        ball.x as int
    } else if horizontal(paddle.side) {
        approach_boundary(paddle, ball)
    } else {
        predict_lateral_spec(paddle, ball)
    }
}

/// Predicted impact y coordinate, the counterpart of `predict_x_spec`.
pub open spec fn predict_y_spec(paddle: Paddle, ball: Ball) -> int {
    if normal_velocity(paddle, ball) == 0 {
        ball.y as int
    } else if horizontal(paddle.side) {
        predict_lateral_spec(paddle, ball)
    } else {
        approach_boundary(paddle, ball)
    }
}

/// Whether the ball is moving toward the paddle placement on `side`.
pub fn moving_toward(side: &Side, vx: i64, vy: i64) -> (toward: bool)
    ensures
        toward == toward_side(*side, vx as int, vy as int),
{
    match side {
        Side::Left => vx < 0,
        Side::Right => vx > 0,
        Side::Top => vy > 0,
        Side::Bottom => vy < 0,
    }
}

/// The predicted point of arrival, the time until it, and the paddle
/// velocity needed to intercept there.
#[derive(Clone, Copy, Debug, PartialEq, Eq, Structural)]
pub struct CollisionPrediction {
    pub x: i64,
    pub y: i64,
    pub time_until_collision: i64,
    pub intersection_velocity: i64,
}

impl CollisionPrediction {
    /// Computes the prediction for one paddle and one ball.  The result is a
    /// pure function of the arguments: the four postconditions pin every
    /// field to its closed-form value, so identical inputs always produce
    /// identical predictions.
    pub fn new(paddle: &Paddle, ball: &Ball) -> (prediction: CollisionPrediction)
        requires
            paddle.wf(),
            ball.wf(),
        ensures
            prediction.x == predict_x_spec(*paddle, *ball),
            prediction.y == predict_y_spec(*paddle, *ball),
            prediction.time_until_collision == predict_time_spec(*paddle, *ball),
            prediction.intersection_velocity == predict_velocity_spec(*paddle, *ball),
            -VEL_LIMIT <= prediction.intersection_velocity <= VEL_LIMIT,
    {
        let rect = HitRectangle::new(
            paddle.x,
            paddle.y,
            paddle.width,
            paddle.height,
            ball.radius,
            &paddle.side,
        );
        let on_x_axis: bool = matches!(paddle.side, Side::Left | Side::Right);
        let vn: i64 = if on_x_axis {
            ball.vx
        } else {
            ball.vy
        };
        if vn == 0 {
            return CollisionPrediction {
                x: ball.x,
                y: ball.y,
                time_until_collision: 0,
                intersection_velocity: 0,
            };
        }
        let vo: i64 = if on_x_axis {
            ball.vy
        } else {
            ball.vx
        };
        let bn: i64 = if on_x_axis {
            ball.x
        } else {
            ball.y
        };
        let bo: i64 = if on_x_axis {
            ball.y
        } else {
            ball.x
        };
        let track: i64 = if on_x_axis {
            paddle.y
        } else {
            paddle.x
        };
        let end: i64 = if on_x_axis {
            if ball.vx < 0 {
                rect.right.0
            } else {
                rect.left.0
            }
        } else {
            if ball.vy < 0 {
                rect.top.0
            } else {
                rect.bottom.0
            }
        };
        proof {
            lemma_offset_bound(ball.radius as int);
        }
        let diff: i64 = end - bn;
        let time: i64 = div_fix(diff * TIME_SCALE, vn);
        proof {
            lemma_div_t_mag(diff * TIME_SCALE, vn as int);
        }
        assert(-5_000_000_000_000_000_000 <= vo * time <= 5_000_000_000_000_000_000)
            by (nonlinear_arith)
            requires
                -1_000_000_000 <= vo <= 1_000_000_000,
                -5_000_000_000 <= time <= 5_000_000_000,
        ;
        let travel: i64 = div_fix(vo * time, TIME_SCALE);
        proof {
            lemma_div_t_mag(vo * time, TIME_SCALE as int);
            lemma_div_is_ordered(
                abs_val(vo * time),
                5_000_000_000_000_000_000,
                TIME_SCALE as int,
            );
        }
        let impact: i64 = bo + travel;
        let steering: i64 = if time == 0 {
            0
        } else {
            let raw: i64 = div_fix((impact - track) * TIME_SCALE, time);
            clamp_fix(raw, -VEL_LIMIT, VEL_LIMIT)
        };
        if on_x_axis {
            CollisionPrediction {
                x: end,
                y: impact,
                time_until_collision: time,
                intersection_velocity: steering,
            }
        } else {
            CollisionPrediction {
                x: impact,
                y: end,
                time_until_collision: time,
                intersection_velocity: steering,
            }
        }
    }
}

/// The steering a paddle receives for the current ball state: the predicted
/// interception velocity when the ball is moving toward the paddle's side,
/// and zero otherwise, so that a paddle never chases a ball moving away.
pub open spec fn steer_spec(paddle: Paddle, ball: Ball) -> int {
    if toward_side(paddle.side, ball.vx as int, ball.vy as int) {
        predict_velocity_spec(paddle, ball)
    } else {
        0
    }
}

/// Relation between a paddle before and after one controller pass: only the
/// steering velocity changes, and it becomes `steer_spec`.
pub open spec fn steered(before: Paddle, after: Paddle, ball: Ball) -> bool {
    &&& after.side == before.side
    &&& after.x == before.x
    &&& after.y == before.y
    &&& after.width == before.width
    &&& after.height == before.height
    &&& after.velocity == steer_spec(before, ball)
}

/// The predictive paddle controller.
pub struct PaddleSystem;

impl PaddleSystem {
    /// One controller pass: writes each paddle's steering velocity from the
    /// collision prediction against the given ball snapshot.
    pub fn run(&self, paddles: &mut Vec<Paddle>, ball: &Ball)
        requires
            ball.wf(),
            forall|i: int| 0 <= i < old(paddles)@.len() ==> (#[trigger] old(paddles)@[i]).wf(),
        ensures
            final(paddles)@.len() == old(paddles)@.len(),
            forall|i: int|
                0 <= i < old(paddles)@.len() ==> steered(
                    old(paddles)@[i],
                    #[trigger] final(paddles)@[i],
                    *ball,
                ),
            forall|i: int| 0 <= i < final(paddles)@.len() ==> (#[trigger] final(paddles)@[i]).wf(),
    {
        let mut updated: Vec<Paddle> = Vec::new();
        let mut i: usize = 0;
        while i < paddles.len()
            invariant
                *paddles == *old(paddles),
                ball.wf(),
                forall|j: int| 0 <= j < paddles@.len() ==> (#[trigger] paddles@[j]).wf(),
                0 <= i <= paddles@.len(),
                updated@.len() == i,
                forall|j: int|
                    0 <= j < i ==> steered(paddles@[j], #[trigger] updated@[j], *ball),
                forall|j: int| 0 <= j < i ==> (#[trigger] updated@[j]).wf(),
            decreases paddles@.len() - i,
        {
            let paddle: Paddle = paddles[i];
            let steering: i64 = if moving_toward(&paddle.side, ball.vx, ball.vy) {
                let prediction = CollisionPrediction::new(&paddle, ball);
                prediction.intersection_velocity
            } else {
                0
            };
            updated.push(Paddle { velocity: steering, ..paddle });
            i = i + 1;
        }
        *paddles = updated;
    }
}

} // verus!

