//! Core of a beat-synchronised, four-paddle ball game.
//!
//! All geometry runs on fixed-point `i64` values: positions and lengths are
//! expressed in arbitrary fixed-point units, velocities in units per second,
//! and times in units of `1 / TIME_SCALE` seconds.  Every quantity the game
//! needs — hit rectangles, time of impact, interception steering, the
//! tempo-driven velocity rescale — is defined by exact integer arithmetic, so
//! each function carries a contract that pins its result down completely.

pub mod beats;
pub mod bounce;
pub mod geometry;
pub mod move_paddle;
pub mod paddle;
pub mod state;
pub mod units;
pub mod winner;
