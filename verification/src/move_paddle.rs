//! The movement system: integrates each paddle's steering velocity over one
//! tick and keeps the paddle body inside the arena.

use crate::state::{horizontal, Arena, Paddle, Side};
use crate::units::{clamp_fix, clamp_val, div_fix, div_t, lemma_div_t_mag, STEP_LIMIT, TIME_SCALE};
use vstd::prelude::*;

verus! {

/// Relation between a paddle before and after one movement step: it advances
/// along its single movement axis by `velocity * dt` (in fixed-point time
/// units), clamped so the whole paddle body stays inside the arena; nothing
/// else changes.
pub open spec fn moved(
    before: Paddle,
    after: Paddle,
    arena_width: int,
    arena_height: int,
    dt: int,
) -> bool {
    &&& after.side == before.side
    &&& after.velocity == before.velocity
    &&& after.width == before.width
    &&& after.height == before.height
    &&& if horizontal(before.side) {
        after.x == before.x && after.y == clamp_val(
            before.y + div_t(before.velocity * dt, TIME_SCALE as int),
            0,
            arena_height - before.height,
        )
    } else {
        after.y == before.y && after.x == clamp_val(
            before.x + div_t(before.velocity * dt, TIME_SCALE as int),
            0,
            arena_width - before.width,
        )
    }
}

/// The movement system: the external integrator of the paddles' steering
/// velocities.
pub struct MovePaddleSystem;

impl MovePaddleSystem {
    /// One movement step of `delta_time` fixed-point time units over all
    /// paddles.
    pub fn run(&self, paddles: &mut Vec<Paddle>, arena: &Arena, delta_time: i64)
        requires
            arena.wf(),
            0 <= delta_time <= STEP_LIMIT,
            forall|i: int|
                0 <= i < old(paddles)@.len() ==> (#[trigger] old(paddles)@[i]).wf() && old(
                    paddles,
                )@[i].width <= arena.width && old(paddles)@[i].height <= arena.height,
        ensures
            final(paddles)@.len() == old(paddles)@.len(),
            forall|i: int|
                0 <= i < old(paddles)@.len() ==> moved(
                    old(paddles)@[i],
                    #[trigger] final(paddles)@[i],
                    arena.width as int,
                    arena.height as int,
                    delta_time as int,
                ),
            forall|i: int| 0 <= i < final(paddles)@.len() ==> (#[trigger] final(paddles)@[i]).wf(),
    {
        let mut updated: Vec<Paddle> = Vec::new();
        let mut i: usize = 0;
        while i < paddles.len()
            invariant
                *paddles == *old(paddles),
                arena.wf(),
                0 <= delta_time <= STEP_LIMIT,
                forall|j: int|
                    0 <= j < paddles@.len() ==> (#[trigger] paddles@[j]).wf() && paddles@[j].width
                        <= arena.width && paddles@[j].height <= arena.height,
                0 <= i <= paddles@.len(),
                updated@.len() == i,
                forall|j: int|
                    0 <= j < i ==> moved(
                        paddles@[j],
                        #[trigger] updated@[j],
                        arena.width as int,
                        arena.height as int,
                        delta_time as int,
                    ),
                forall|j: int| 0 <= j < i ==> (#[trigger] updated@[j]).wf(),
            decreases paddles@.len() - i,
        {
            let paddle: Paddle = paddles[i];
            assert(-3_600_000_000_000_000 <= paddle.velocity * delta_time
                <= 3_600_000_000_000_000) by (nonlinear_arith)
                requires
                    -1_000_000_000 <= paddle.velocity <= 1_000_000_000,
                    0 <= delta_time <= 3_600_000,
            ;
            let step: i64 = div_fix(paddle.velocity * delta_time, TIME_SCALE);
            proof {
                lemma_div_t_mag(paddle.velocity * delta_time, TIME_SCALE as int);
            }
            let next: Paddle = if matches!(paddle.side, Side::Left | Side::Right) {
                let position: i64 = clamp_fix(paddle.y + step, 0, arena.height - paddle.height);
                Paddle { y: position, ..paddle }
            } else {
                let position: i64 = clamp_fix(paddle.x + step, 0, arena.width - paddle.width);
                Paddle { x: position, ..paddle }
            };
            updated.push(next);
            i = i + 1;
        }
        *paddles = updated;
    }
}

} // verus!
