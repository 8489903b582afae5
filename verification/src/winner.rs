//! The scoring system: detects a ball that has reached the left or right
//! scoring edge, resets it to the horizontal middle, and reports the score so
//! the caller can award the point and cue its audio.

use crate::state::{Arena, Ball};
use crate::units::{div_fix, div_t, lemma_div_t_mag, lemma_div_t_sign};
use vstd::prelude::*;

verus! {

/// Whether the ball's centre is at or beyond a scoring edge.
pub open spec fn scored_spec(ball: Ball, arena_width: int) -> bool {
    ball.x <= ball.radius || ball.x >= arena_width - ball.radius
}

/// The scoring system.
pub struct WinnerSystem;

impl WinnerSystem {
    /// Checks one ball against the scoring edges.  On a hit the horizontal
    /// velocity reflects and the ball returns to the horizontal middle of
    /// the arena; nothing else changes.  Returns whether a score happened.
    pub fn run(&self, ball: &mut Ball, arena: &Arena) -> (scored: bool)
        requires
            old(ball).wf(),
            arena.wf(),
        ensures
            scored == scored_spec(*old(ball), arena.width as int),
            scored ==> final(ball).x == div_t(arena.width as int, 2),
            scored ==> final(ball).vx == -old(ball).vx,
            scored ==> final(ball).y == old(ball).y && final(ball).vy == old(ball).vy,
            scored ==> final(ball).radius == old(ball).radius,
            !scored ==> *final(ball) == *old(ball),
            final(ball).wf(),
    {
        let did_hit: bool = ball.x <= ball.radius || ball.x >= arena.width - ball.radius;
        if did_hit {
            ball.vx = -ball.vx;
            ball.x = div_fix(arena.width, 2);
            proof {
                lemma_div_t_mag(arena.width as int, 2);
                lemma_div_t_sign(arena.width as int, 2);
            }
        }
        did_hit
    }
}

} // verus!
