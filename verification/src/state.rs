//! The owned value types the simulation tick loop threads through the
//! systems: the ball, the four paddles and the arena.

use crate::units::{COORD_LIMIT, VEL_LIMIT};
use vstd::prelude::*;

verus! {

/// The four fixed paddle placements around the arena perimeter.
#[derive(Clone, Copy, Debug, PartialEq, Eq, Structural)]
pub enum Side {
    Left,
    Right,
    Top,
    Bottom,
}

/// A paddle on `side` Left or Right moves along the y axis; one on Top or
/// Bottom moves along the x axis.
pub open spec fn horizontal(side: Side) -> bool {
    side == Side::Left || side == Side::Right
}

/// The ball: centre position, velocity vector, and its constant radius.
#[derive(Clone, Copy, Debug, PartialEq, Eq, Structural)]
pub struct Ball {
    pub x: i64,
    pub y: i64,
    pub vx: i64,
    pub vy: i64,
    pub radius: i64,
}

impl Ball {
    /// Positive radius, position and velocity within the fixed-point bands.
    pub open spec fn wf(self) -> bool {
        &&& 0 < self.radius <= COORD_LIMIT
        &&& -COORD_LIMIT <= self.x <= COORD_LIMIT
        &&& -COORD_LIMIT <= self.y <= COORD_LIMIT
        &&& -VEL_LIMIT <= self.vx <= VEL_LIMIT
        &&& -VEL_LIMIT <= self.vy <= VEL_LIMIT
    }
}

/// A paddle: its fixed side, the lower-left corner of its body, its
/// dimensions, and the steering velocity along its single movement axis that
/// the controller writes each tick.
#[derive(Clone, Copy, Debug, PartialEq, Eq, Structural)]
pub struct Paddle {
    pub side: Side,
    pub x: i64,
    pub y: i64,
    pub velocity: i64,
    pub width: i64,
    pub height: i64,
}

impl Paddle {
    /// Positive dimensions, position and steering velocity within the
    /// fixed-point bands.
    pub open spec fn wf(self) -> bool {
        &&& 0 < self.width <= COORD_LIMIT
        &&& 0 < self.height <= COORD_LIMIT
        &&& -COORD_LIMIT <= self.x <= COORD_LIMIT
        &&& -COORD_LIMIT <= self.y <= COORD_LIMIT
        &&& -VEL_LIMIT <= self.velocity <= VEL_LIMIT
    }
}

/// The fixed play field, spanning `[0, width] x [0, height]`.
#[derive(Clone, Copy, Debug, PartialEq, Eq, Structural)]
pub struct Arena {
    pub width: i64,
    pub height: i64,
}

impl Arena {
    /// Positive extent within the fixed-point band.
    pub open spec fn wf(self) -> bool {
        &&& 0 < self.width <= COORD_LIMIT
        &&& 0 < self.height <= COORD_LIMIT
    }
}

} // verus!
