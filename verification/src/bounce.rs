//! The bounce engine: wall and paddle contact detection, velocity
//! reflection, and the tempo-synchronised rescale that makes the ball cross
//! its next significant boundary in exactly one beat interval.

use crate::beats::Intervals;
use crate::geometry::{
    in_rect_spec, point_in_rect, rect_bottom_spec, rect_left_spec, rect_right_spec, rect_top_spec,
    HitRectangle,
};
use crate::paddle::{moving_toward, toward_side};
use crate::state::{horizontal, Arena, Ball, Paddle, Side};
use crate::units::{
    abs_val, clamp_fix, clamp_val, div_fix, div_t, lemma_div_t_mag, lemma_div_t_sign, COORD_LIMIT,
    TIME_SCALE, VEL_LIMIT,
};
use vstd::arithmetic::div_mod::lemma_div_is_ordered;
use vstd::prelude::*;

verus! {

/// The arena-boundary-adjusted x target: the x coordinate, inset by `pad`,
/// that the ball is expected to reach next in its direction of travel.
pub open spec fn target_x_spec(vx: int, arena_width: int, pad: int) -> int {
    if vx >= 0 {
        arena_width - pad
    } else {
        pad
    }
}

/// The arena-boundary-adjusted y target, the counterpart of `target_x_spec`.
pub open spec fn target_y_spec(vy: int, arena_height: int, pad: int) -> int {
    if vy >= 0 {
        arena_height - pad
    } else {
        pad
    }
}

/// The fixed coordinate: the point on the inset arena boundary the ball will
/// cross first at its current velocity.  The axis crossed sooner keeps its
/// target coordinate; the other axis gets the ball's projected position at
/// that crossing time.  A resting axis puts no constraint of its own and
/// keeps the ball's current coordinate.
pub open spec fn fixed_coordinate_spec(
    x: int,
    y: int,
    vx: int,
    vy: int,
    arena_width: int,
    arena_height: int,
    pad: int,
) -> (int, int) {
    let xm = target_x_spec(vx, arena_width, pad);
    let ym = target_y_spec(vy, arena_height, pad);
    if vx == 0 && vy == 0 {
        (x, y)
    } else if vx == 0 {
        (x, ym)
    } else if vy == 0 {
        (xm, y)
    } else {
        let tx = div_t((xm - x) * TIME_SCALE, vx);
        let ty = div_t((ym - y) * TIME_SCALE, vy);
        if tx <= ty {
            (xm, y + div_t(vy * tx, TIME_SCALE as int))
        } else {
            (x + div_t(vx * ty, TIME_SCALE as int), ym)
        }
    }
}

/// The velocity after a tempo rescale: each component becomes the remaining
/// distance to the fixed coordinate divided by the beat interval `delta`,
/// saturated at `VEL_LIMIT`.  A zero interval (exhausted queue) disables the
/// rescale and keeps the just-reflected velocity.
pub open spec fn rescale_spec(
    x: int,
    y: int,
    vx: int,
    vy: int,
    arena_width: int,
    arena_height: int,
    pad: int,
    delta: int,
) -> (int, int) {
    if delta == 0 {
        (vx, vy)
    } else {
        let target = fixed_coordinate_spec(x, y, vx, vy, arena_width, arena_height, pad);
        (
            clamp_val(
                div_t((target.0 - x) * TIME_SCALE, delta),
                -VEL_LIMIT as int,
                VEL_LIMIT as int,
            ),
            clamp_val(
                div_t((target.1 - y) * TIME_SCALE, delta),
                -VEL_LIMIT as int,
                VEL_LIMIT as int,
            ),
        )
    }
}

/// Computes the fixed coordinate, exactly as `fixed_coordinate_spec` states;
/// the bound postconditions feed the overflow reasoning of the rescale.
pub fn fixed_coordinate(x: i64, y: i64, vx: i64, vy: i64, arena: &Arena, pad: i64) -> (target: (
    i64,
    i64,
))
    requires
        -COORD_LIMIT <= x <= COORD_LIMIT,
        -COORD_LIMIT <= y <= COORD_LIMIT,
        -VEL_LIMIT <= vx <= VEL_LIMIT,
        -VEL_LIMIT <= vy <= VEL_LIMIT,
        arena.wf(),
        0 <= pad <= 2 * COORD_LIMIT,
    ensures
        target.0 == fixed_coordinate_spec(
            x as int,
            y as int,
            vx as int,
            vy as int,
            arena.width as int,
            arena.height as int,
            pad as int,
        ).0,
        target.1 == fixed_coordinate_spec(
            x as int,
            y as int,
            vx as int,
            vy as int,
            arena.width as int,
            arena.height as int,
            pad as int,
        ).1,
        abs_val(target.0 - x) <= 4_000_000_000_000_000,
        abs_val(target.1 - y) <= 4_000_000_000_000_000,
{
    let xm: i64 = if vx >= 0 {
        arena.width - pad
    } else {
        pad
    };
    let ym: i64 = if vy >= 0 {
        arena.height - pad
    } else {
        pad
    };
    if vx == 0 && vy == 0 {
        (x, y)
    } else if vx == 0 {
        (x, ym)
    } else if vy == 0 {
        (xm, y)
    } else {
        let tx: i64 = div_fix((xm - x) * TIME_SCALE, vx);
        let ty: i64 = div_fix((ym - y) * TIME_SCALE, vy);
        proof {
            lemma_div_t_mag((xm - x) * TIME_SCALE, vx as int);
            lemma_div_t_mag((ym - y) * TIME_SCALE, vy as int);
        }
        if tx <= ty {
            assert(-4_000_000_000_000_000_000 <= vy * tx <= 4_000_000_000_000_000_000)
                by (nonlinear_arith)
                requires
                    -1_000_000_000 <= vy <= 1_000_000_000,
                    -4_000_000_000 <= tx <= 4_000_000_000,
            ;
            let projected: i64 = div_fix(vy * tx, TIME_SCALE);
            proof {
                lemma_div_t_mag(vy * tx, TIME_SCALE as int);
                lemma_div_is_ordered(
                    abs_val(vy * tx),
                    4_000_000_000_000_000_000,
                    TIME_SCALE as int,
                );
            }
            (xm, y + projected)
        } else {
            assert(-4_000_000_000_000_000_000 <= vx * ty <= 4_000_000_000_000_000_000)
                by (nonlinear_arith)
                requires
                    -1_000_000_000 <= vx <= 1_000_000_000,
                    -4_000_000_000 <= ty <= 4_000_000_000,
            ;
            let projected: i64 = div_fix(vx * ty, TIME_SCALE);
            proof {
                lemma_div_t_mag(vx * ty, TIME_SCALE as int);
                lemma_div_is_ordered(
                    abs_val(vx * ty),
                    4_000_000_000_000_000_000,
                    TIME_SCALE as int,
                );
            }
            (x + projected, ym)
        }
    }
}

/// Rescales a just-reflected velocity so the ball reaches the fixed
/// coordinate in exactly `delta` time units, as `rescale_spec` states.
pub fn adjust_velocity(
    x: i64,
    y: i64,
    vx: i64,
    vy: i64,
    arena: &Arena,
    pad: i64,
    delta: i64,
) -> (velocity: (i64, i64))
    requires
        -COORD_LIMIT <= x <= COORD_LIMIT,
        -COORD_LIMIT <= y <= COORD_LIMIT,
        -VEL_LIMIT <= vx <= VEL_LIMIT,
        -VEL_LIMIT <= vy <= VEL_LIMIT,
        arena.wf(),
        0 <= pad <= 2 * COORD_LIMIT,
        delta >= 0,
    ensures
        velocity.0 == rescale_spec(
            x as int,
            y as int,
            vx as int,
            vy as int,
            arena.width as int,
            arena.height as int,
            pad as int,
            delta as int,
        ).0,
        velocity.1 == rescale_spec(
            x as int,
            y as int,
            vx as int,
            vy as int,
            arena.width as int,
            arena.height as int,
            pad as int,
            delta as int,
        ).1,
        -VEL_LIMIT <= velocity.0 <= VEL_LIMIT,
        -VEL_LIMIT <= velocity.1 <= VEL_LIMIT,
{
    if delta == 0 {
        (vx, vy)
    } else {
        let target: (i64, i64) = fixed_coordinate(x, y, vx, vy, arena, pad);
        let nvx: i64 = clamp_fix(
            div_fix((target.0 - x) * TIME_SCALE, delta),
            -VEL_LIMIT,
            VEL_LIMIT,
        );
        let nvy: i64 = clamp_fix(
            div_fix((target.1 - y) * TIME_SCALE, delta),
            -VEL_LIMIT,
            VEL_LIMIT,
        );
        (nvx, nvy)
    }
}

/// One reflection: the velocity component aligned with the side's normal
/// axis flips sign; the other component is untouched.
pub open spec fn reflect_spec(side: Side, vx: int, vy: int) -> (int, int) {
    if horizontal(side) {
        (-vx, vy)
    } else {
        (vx, -vy)
    }
}

/// Paddle contact gate: the ball's centre lies within the paddle's inflated
/// hit rectangle (boundaries inclusive) and the ball is moving toward the
/// paddle's side.  The direction gate is what prevents a second reflection
/// off the same paddle in consecutive ticks.
pub open spec fn paddle_reflects(paddle: Paddle, ball: Ball) -> bool {
    in_rect_spec(
        ball.x as int,
        ball.y as int,
        rect_left_spec(paddle.x as int, ball.radius as int),
        rect_right_spec(
            paddle.x as int,
            paddle.width as int,
            paddle.height as int,
            ball.radius as int,
            paddle.side,
        ),
        rect_bottom_spec(paddle.y as int, ball.radius as int),
        rect_top_spec(
            paddle.y as int,
            paddle.width as int,
            paddle.height as int,
            ball.radius as int,
            paddle.side,
        ),
    ) && toward_side(paddle.side, ball.vx as int, ball.vy as int)
}

/// Wall gate: the ball is at or beyond the arena boundary opposite its
/// direction of travel on the y axis.
pub open spec fn wall_reflects(ball: Ball, arena_height: int) -> bool {
    (ball.y <= ball.radius && ball.vy < 0) || (ball.y >= arena_height - ball.radius && ball.vy
        > 0)
}

/// Head of the interval queue, with the fallback zero when exhausted.
pub open spec fn pop_delta_spec(queue: Seq<int>) -> int {
    if queue.len() == 0 {
        0
    } else {
        queue[0]
    }
}

/// The interval queue after one pop.
pub open spec fn pop_rest_spec(queue: Seq<int>) -> Seq<int> {
    if queue.len() == 0 {
        queue
    } else {
        queue.drop_first()
    }
}

/// The ball carrying the rescale of the given (already reflected) velocity.
pub open spec fn rescaled_ball(
    ball: Ball,
    vx: int,
    vy: int,
    arena_width: int,
    arena_height: int,
    pad: int,
    delta: int,
) -> Ball {
    let velocity = rescale_spec(
        ball.x as int,
        ball.y as int,
        vx,
        vy,
        arena_width,
        arena_height,
        pad,
        delta,
    );
    Ball { vx: velocity.0 as i64, vy: velocity.1 as i64, ..ball }
}

/// One paddle's contact processing: on a gated hit, reflect the aligned
/// velocity component, pop one beat interval and rescale; otherwise leave
/// ball and queue alone.  The third component counts reflections (0 or 1).
pub open spec fn contact_spec(
    paddle: Paddle,
    ball: Ball,
    queue: Seq<int>,
    arena_width: int,
    arena_height: int,
    pad: int,
) -> (Ball, Seq<int>, int) {
    if paddle_reflects(paddle, ball) {
        let reflected = reflect_spec(paddle.side, ball.vx as int, ball.vy as int);
        (
            rescaled_ball(
                ball,
                reflected.0,
                reflected.1,
                arena_width,
                arena_height,
                pad,
                pop_delta_spec(queue),
            ),
            pop_rest_spec(queue),
            1,
        )
    } else {
        (ball, queue, 0)
    }
}

/// The wall phase: on a gated wall hit, reflect the vertical component, pop
/// one beat interval and rescale.
pub open spec fn wall_spec(
    ball: Ball,
    queue: Seq<int>,
    arena_width: int,
    arena_height: int,
    pad: int,
) -> (Ball, Seq<int>, int) {
    if wall_reflects(ball, arena_height) {
        (
            rescaled_ball(
                ball,
                ball.vx as int,
                -(ball.vy as int),
                arena_width,
                arena_height,
                pad,
                pop_delta_spec(queue),
            ),
            pop_rest_spec(queue),
            1,
        )
    } else {
        (ball, queue, 0)
    }
}

/// The paddle phase folded over the paddles in order.
pub open spec fn bounce_paddles_spec(
    ball: Ball,
    queue: Seq<int>,
    paddles: Seq<Paddle>,
    arena_width: int,
    arena_height: int,
    pad: int,
) -> (Ball, Seq<int>, int)
    decreases paddles.len(),
{
    if paddles.len() == 0 {
        (ball, queue, 0)
    } else {
        let first = contact_spec(paddles[0], ball, queue, arena_width, arena_height, pad);
        let rest = bounce_paddles_spec(
            first.0,
            first.1,
            paddles.drop_first(),
            arena_width,
            arena_height,
            pad,
        );
        (rest.0, rest.1, first.2 + rest.2)
    }
}

/// A whole engine pass for one ball: the wall phase, then the paddle phase.
pub open spec fn bounce_tick_spec(
    ball: Ball,
    queue: Seq<int>,
    paddles: Seq<Paddle>,
    arena_width: int,
    arena_height: int,
    pad: int,
) -> (Ball, Seq<int>, int) {
    let walled = wall_spec(ball, queue, arena_width, arena_height, pad);
    let after = bounce_paddles_spec(
        walled.0,
        walled.1,
        paddles,
        arena_width,
        arena_height,
        pad,
    );
    (after.0, after.1, walled.2 + after.2)
}

/// A reflection flips exactly one velocity component per contact event: the
/// one aligned with the side's normal axis.  The other component is kept, and
/// (away from resting components, where a flip is invisible) the two are
/// never both flipped.
pub proof fn lemma_reflection_flips_exactly_one(side: Side, vx: int, vy: int)
    ensures
        horizontal(side) ==> reflect_spec(side, vx, vy) == (-vx, vy),
        !horizontal(side) ==> reflect_spec(side, vx, vy) == (vx, -vy),
        vx != 0 && vy != 0 ==> !(reflect_spec(side, vx, vy).0 == -vx && reflect_spec(
            side,
            vx,
            vy,
        ).1 == -vy),
{
}

/// Reflecting off a side leaves the ball moving away from it, so the contact
/// gate cannot reflect the same component again: within one tick a contact
/// event flips a component once.
pub proof fn lemma_no_double_reflection(side: Side, vx: int, vy: int)
    requires
        toward_side(side, vx, vy),
    ensures
        !toward_side(side, reflect_spec(side, vx, vy).0, reflect_spec(side, vx, vy).1),
{
}

/// Containment alone causes no bounce: a ball inside a paddle's hit
/// rectangle but not moving toward that paddle's side is left entirely
/// alone — no reflection, no queue pop, no rescale.
pub proof fn lemma_no_contact_without_approach(
    paddle: Paddle,
    ball: Ball,
    queue: Seq<int>,
    arena_width: int,
    arena_height: int,
    pad: int,
)
    requires
        !toward_side(paddle.side, ball.vx as int, ball.vy as int),
    ensures
        contact_spec(paddle, ball, queue, arena_width, arena_height, pad) == (ball, queue, 0int),
{
}

/// Sign of one rescaled component: the saturated quotient of a distance `d`
/// (in time units) by a positive interval carries the sign of `d`.
proof fn lemma_component_sign(d: int, delta: int)
    requires
        delta > 0,
    ensures
        d >= 0 ==> clamp_val(div_t(d * TIME_SCALE, delta), -VEL_LIMIT as int, VEL_LIMIT as int)
            >= 0,
        d <= 0 ==> clamp_val(div_t(d * TIME_SCALE, delta), -VEL_LIMIT as int, VEL_LIMIT as int)
            <= 0,
        d == 0 ==> clamp_val(div_t(d * TIME_SCALE, delta), -VEL_LIMIT as int, VEL_LIMIT as int)
            == 0,
{
    lemma_div_t_sign(d * TIME_SCALE, delta);
}

/// The tempo rescale preserves each velocity component's direction: for
/// every positive interval drawn from the queue, and a ball inside the band
/// the fixed-coordinate targets span, a rescaled component never points
/// against the (just reflected) component it replaces, and a resting
/// component stays at rest.
pub proof fn lemma_rescale_preserves_direction(
    x: int,
    y: int,
    vx: int,
    vy: int,
    arena_width: int,
    arena_height: int,
    pad: int,
    delta: int,
)
    requires
        delta > 0,
        0 <= pad,
        pad <= x <= arena_width - pad,
        pad <= y <= arena_height - pad,
    ensures
        vx > 0 ==> rescale_spec(x, y, vx, vy, arena_width, arena_height, pad, delta).0 >= 0,
        vx < 0 ==> rescale_spec(x, y, vx, vy, arena_width, arena_height, pad, delta).0 <= 0,
        vx == 0 ==> rescale_spec(x, y, vx, vy, arena_width, arena_height, pad, delta).0 == 0,
        vy > 0 ==> rescale_spec(x, y, vx, vy, arena_width, arena_height, pad, delta).1 >= 0,
        vy < 0 ==> rescale_spec(x, y, vx, vy, arena_width, arena_height, pad, delta).1 <= 0,
        vy == 0 ==> rescale_spec(x, y, vx, vy, arena_width, arena_height, pad, delta).1 == 0,
{
    let xm = target_x_spec(vx, arena_width, pad);
    let ym = target_y_spec(vy, arena_height, pad);
    let target = fixed_coordinate_spec(x, y, vx, vy, arena_width, arena_height, pad);
    if vx == 0 && vy == 0 {
        lemma_component_sign(0, delta);
    } else if vx == 0 {
        lemma_component_sign(0, delta);
        lemma_component_sign(ym - y, delta);
    } else if vy == 0 {
        lemma_component_sign(xm - x, delta);
        lemma_component_sign(0, delta);
    } else {
        let tx = div_t((xm - x) * TIME_SCALE, vx);
        let ty = div_t((ym - y) * TIME_SCALE, vy);
        lemma_div_t_sign((xm - x) * TIME_SCALE, vx);
        lemma_div_t_sign((ym - y) * TIME_SCALE, vy);
        assert(tx >= 0);
        assert(ty >= 0);
        if tx <= ty {
            lemma_component_sign(xm - x, delta);
            assert(vy > 0 ==> vy * tx >= 0) by (nonlinear_arith)
                requires
                    tx >= 0,
            ;
            assert(vy < 0 ==> vy * tx <= 0) by (nonlinear_arith)
                requires
                    tx >= 0,
            ;
            lemma_div_t_sign(vy * tx, TIME_SCALE as int);
            lemma_component_sign(target.1 - y, delta);
        } else {
            lemma_component_sign(ym - y, delta);
            assert(vx > 0 ==> vx * ty >= 0) by (nonlinear_arith)
                requires
                    ty >= 0,
            ;
            assert(vx < 0 ==> vx * ty <= 0) by (nonlinear_arith)
                requires
                    ty >= 0,
            ;
            lemma_div_t_sign(vx * ty, TIME_SCALE as int);
            lemma_component_sign(target.0 - x, delta);
        }
    }
}

/// The tempo rescale matches magnitudes: for every positive interval, each
/// rescaled component whose raw quotient is within the saturation band equals
/// exactly the remaining distance to the fixed coordinate (in time units)
/// divided by the interval — magnitude `distance / delta`, direction
/// included.
pub proof fn lemma_rescale_magnitude(
    x: int,
    y: int,
    vx: int,
    vy: int,
    arena_width: int,
    arena_height: int,
    pad: int,
    delta: int,
)
    requires
        delta > 0,
    ensures
        ({
            let target = fixed_coordinate_spec(x, y, vx, vy, arena_width, arena_height, pad);
            let rescaled = rescale_spec(x, y, vx, vy, arena_width, arena_height, pad, delta);
            &&& abs_val(div_t((target.0 - x) * TIME_SCALE, delta)) <= VEL_LIMIT ==> rescaled.0
                == div_t((target.0 - x) * TIME_SCALE, delta) && abs_val(rescaled.0) == div_t(
                abs_val((target.0 - x) * TIME_SCALE),
                delta,
            )
            &&& abs_val(div_t((target.1 - y) * TIME_SCALE, delta)) <= VEL_LIMIT ==> rescaled.1
                == div_t((target.1 - y) * TIME_SCALE, delta) && abs_val(rescaled.1) == div_t(
                abs_val((target.1 - y) * TIME_SCALE),
                delta,
            )
        }),
{
    let target = fixed_coordinate_spec(x, y, vx, vy, arena_width, arena_height, pad);
    lemma_div_t_mag((target.0 - x) * TIME_SCALE, delta);
    lemma_div_t_mag((target.1 - y) * TIME_SCALE, delta);
    lemma_div_t_sign((target.0 - x) * TIME_SCALE, delta);
    lemma_div_t_sign((target.1 - y) * TIME_SCALE, delta);
}

/// Round trip: running the reflect-and-rescale contact twice in immediate
/// succession, with no position change in between, does not change the
/// velocity again — the direction gate sees the ball moving away after the
/// first contact and suppresses the second reflection, so the magnitude
/// cannot double.
pub proof fn lemma_contact_round_trip(
    paddle: Paddle,
    ball: Ball,
    queue: Seq<int>,
    arena_width: int,
    arena_height: int,
    pad: int,
)
    requires
        ball.wf(),
        0 <= pad,
        pad <= ball.x <= arena_width - pad,
        pad <= ball.y <= arena_height - pad,
        forall|i: int| 0 <= i < queue.len() ==> #[trigger] queue[i] >= 0,
        paddle_reflects(paddle, ball),
    ensures
        ({
            let first = contact_spec(paddle, ball, queue, arena_width, arena_height, pad);
            contact_spec(paddle, first.0, first.1, arena_width, arena_height, pad) == (
                first.0,
                first.1,
                0int,
            )
        }),
{
    let reflected = reflect_spec(paddle.side, ball.vx as int, ball.vy as int);
    let delta = pop_delta_spec(queue);
    let rescaled = rescale_spec(
        ball.x as int,
        ball.y as int,
        reflected.0,
        reflected.1,
        arena_width,
        arena_height,
        pad,
        delta,
    );
    if delta > 0 {
        lemma_rescale_preserves_direction(
            ball.x as int,
            ball.y as int,
            reflected.0,
            reflected.1,
            arena_width,
            arena_height,
            pad,
            delta,
        );
    }
    assert(-VEL_LIMIT <= rescaled.0 <= VEL_LIMIT);
    assert(-VEL_LIMIT <= rescaled.1 <= VEL_LIMIT);
    let first = contact_spec(paddle, ball, queue, arena_width, arena_height, pad);
    assert(first.0.vx == rescaled.0 && first.0.vy == rescaled.1);
    assert(!toward_side(paddle.side, first.0.vx as int, first.0.vy as int));
}

/// The paddle phase pops one interval per reflection: after the fold the
/// queue is shorter by exactly the number of reflections, until it bottoms
/// out at empty.
proof fn lemma_paddles_pop_per_bounce(
    ball: Ball,
    queue: Seq<int>,
    paddles: Seq<Paddle>,
    arena_width: int,
    arena_height: int,
    pad: int,
)
    ensures
        ({
            let after = bounce_paddles_spec(ball, queue, paddles, arena_width, arena_height, pad);
            &&& after.2 >= 0
            &&& after.1.len() == (if queue.len() >= after.2 {
                queue.len() - after.2
            } else {
                0
            })
        }),
    decreases paddles.len(),
{
    if paddles.len() > 0 {
        let first = contact_spec(paddles[0], ball, queue, arena_width, arena_height, pad);
        lemma_paddles_pop_per_bounce(
            first.0,
            first.1,
            paddles.drop_first(),
            arena_width,
            arena_height,
            pad,
        );
    }
}

/// The engine consumes the beat queue one interval per reflection: a tick
/// with `n` reflections leaves the queue shorter by exactly `n`, until the
/// queue bottoms out at empty and the fallback interval takes over.
pub proof fn lemma_one_interval_per_bounce(
    ball: Ball,
    queue: Seq<int>,
    paddles: Seq<Paddle>,
    arena_width: int,
    arena_height: int,
    pad: int,
)
    ensures
        ({
            let tick = bounce_tick_spec(ball, queue, paddles, arena_width, arena_height, pad);
            &&& tick.2 >= 0
            &&& tick.1.len() == (if queue.len() >= tick.2 {
                queue.len() - tick.2
            } else {
                0
            })
        }),
{
    let walled = wall_spec(ball, queue, arena_width, arena_height, pad);
    lemma_paddles_pop_per_bounce(
        walled.0,
        walled.1,
        paddles,
        arena_width,
        arena_height,
        pad,
    );
}

/// The wall phase on one ball, exactly as `wall_spec` states.  Returns
/// whether a reflection happened.
fn wall_phase(ball: &mut Ball, intervals: &mut Intervals, arena: &Arena, pad: i64) -> (hit: bool)
    requires
        old(ball).wf(),
        old(intervals).wf(),
        arena.wf(),
        0 <= pad <= 2 * COORD_LIMIT,
    ensures
        ({
            let walled = wall_spec(
                *old(ball),
                old(intervals)@,
                arena.width as int,
                arena.height as int,
                pad as int,
            );
            &&& *final(ball) == walled.0
            &&& final(intervals)@ == walled.1
            &&& (if hit { 1int } else { 0int }) == walled.2
        }),
        final(ball).wf(),
        final(intervals).wf(),
        final(ball).x == old(ball).x,
        final(ball).y == old(ball).y,
        final(ball).radius == old(ball).radius,
{
    if (ball.y <= ball.radius && ball.vy < 0) || (ball.y >= arena.height - ball.radius && ball.vy
        > 0) {
        ball.vy = -ball.vy;
        let delta: i64 = intervals.pop();
        let velocity: (i64, i64) = adjust_velocity(
            ball.x,
            ball.y,
            ball.vx,
            ball.vy,
            arena,
            pad,
            delta,
        );
        ball.vx = velocity.0;
        ball.vy = velocity.1;
        true
    } else {
        false
    }
}

/// One paddle's contact processing on one ball, exactly as `contact_spec`
/// states.  Returns whether a reflection happened.
fn contact_paddle(
    ball: &mut Ball,
    paddle: &Paddle,
    intervals: &mut Intervals,
    arena: &Arena,
    pad: i64,
) -> (hit: bool)
    requires
        old(ball).wf(),
        old(intervals).wf(),
        arena.wf(),
        paddle.wf(),
        0 <= pad <= 2 * COORD_LIMIT,
    ensures
        ({
            let contact = contact_spec(
                *paddle,
                *old(ball),
                old(intervals)@,
                arena.width as int,
                arena.height as int,
                pad as int,
            );
            &&& *final(ball) == contact.0
            &&& final(intervals)@ == contact.1
            &&& (if hit { 1int } else { 0int }) == contact.2
        }),
        final(ball).wf(),
        final(intervals).wf(),
        final(ball).x == old(ball).x,
        final(ball).y == old(ball).y,
        final(ball).radius == old(ball).radius,
{
    let rect = HitRectangle::new(
        paddle.x,
        paddle.y,
        paddle.width,
        paddle.height,
        ball.radius,
        &paddle.side,
    );
    if point_in_rect(ball.x, ball.y, &rect) && moving_toward(&paddle.side, ball.vx, ball.vy) {
        if matches!(paddle.side, Side::Left | Side::Right) {
            ball.vx = -ball.vx;
        } else {
            ball.vy = -ball.vy;
        }
        let delta: i64 = intervals.pop();
        let velocity: (i64, i64) = adjust_velocity(
            ball.x,
            ball.y,
            ball.vx,
            ball.vy,
            arena,
            pad,
            delta,
        );
        ball.vx = velocity.0;
        ball.vy = velocity.1;
        true
    } else {
        false
    }
}

/// The bounce engine: detects ball/wall and ball/paddle contact, reflects,
/// and rescales to the beat.
pub struct BounceSystem;

impl BounceSystem {
    /// One engine pass for one ball against all paddles.  `pad` is the inset
    /// of the fixed-coordinate targets from the arena boundary (the paddle
    /// depth plus the ball radius in the standard layout).  Returns the
    /// number of reflections performed; each one is an audio-cue event for
    /// the caller to hand to its mixer.
    pub fn run(
        &self,
        ball: &mut Ball,
        paddles: &Vec<Paddle>,
        intervals: &mut Intervals,
        arena: &Arena,
        pad: i64,
    ) -> (bounces: usize)
        requires
            old(ball).wf(),
            old(intervals).wf(),
            arena.wf(),
            0 <= pad <= 2 * COORD_LIMIT,
            forall|i: int| 0 <= i < paddles@.len() ==> (#[trigger] paddles@[i]).wf(),
            paddles@.len() < usize::MAX,
        ensures
            ({
                let tick = bounce_tick_spec(
                    *old(ball),
                    old(intervals)@,
                    paddles@,
                    arena.width as int,
                    arena.height as int,
                    pad as int,
                );
                *final(ball) == tick.0 && final(intervals)@ == tick.1 && bounces == tick.2
            }),
            final(ball).wf(),
            final(intervals).wf(),
            final(ball).x == old(ball).x,
            final(ball).y == old(ball).y,
            final(ball).radius == old(ball).radius,
    {
        let mut bounces: usize = 0;
        if wall_phase(ball, intervals, arena, pad) {
            bounces = 1;
        }
        let mut i: usize = 0;
        proof {
            assert(paddles@.subrange(0, paddles@.len() as int) =~= paddles@);
        }
        while i < paddles.len()
            invariant
                0 <= i <= paddles@.len(),
                paddles@.len() < usize::MAX,
                arena.wf(),
                0 <= pad <= 2 * COORD_LIMIT,
                forall|j: int| 0 <= j < paddles@.len() ==> (#[trigger] paddles@[j]).wf(),
                ball.wf(),
                intervals.wf(),
                ball.x == old(ball).x,
                ball.y == old(ball).y,
                ball.radius == old(ball).radius,
                bounces <= 1 + i,
                ({
                    let tick = bounce_tick_spec(
                        *old(ball),
                        old(intervals)@,
                        paddles@,
                        arena.width as int,
                        arena.height as int,
                        pad as int,
                    );
                    let rest = bounce_paddles_spec(
                        *ball,
                        intervals@,
                        paddles@.subrange(i as int, paddles@.len() as int),
                        arena.width as int,
                        arena.height as int,
                        pad as int,
                    );
                    rest.0 == tick.0 && rest.1 == tick.1 && bounces + rest.2 == tick.2
                }),
            decreases paddles@.len() - i,
        {
            let paddle: Paddle = paddles[i];
            proof {
                assert(paddles@.subrange(i as int, paddles@.len() as int).drop_first()
                    =~= paddles@.subrange(i as int + 1, paddles@.len() as int));
            }
            if contact_paddle(ball, &paddle, intervals, arena, pad) {
                bounces = bounces + 1;
            }
            i = i + 1;
        }
        bounces
    }
}

} // verus!
