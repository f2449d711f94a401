//! The simulation and rendering geometry of Phoenix, a pseudo-3D runner:
//! a craft flies down a corridor of obstacles drawn in perspective, and a
//! run ends on a crash or at the finish line.
//!
//! Every quantity is an integer. Lengths, in the world and on the screen,
//! are counted in thousandths of a unit, times in milliseconds, and
//! fractions in thousandths. Speeds are in units per second, which is the
//! same as thousandths of a unit per millisecond, so a speed times a
//! duration is a length with nothing to round.
//!
//! Coordinates that a caller hands in are 32-bit. Points of the world that
//! are derived from them are 64-bit, so that deriving them cannot
//! overflow. Their images on the screen are 32-bit again: a point whose
//! image would not fit has none, and is not drawn.
//!
//! Nothing is drawn on a screen here. The drawing functions put lines and
//! texts on a [`engine::Canvas`], which whoever owns the window shows.

use vstd::prelude::*;

pub mod engine;
pub mod fixed;
pub mod game;
pub mod level;
pub mod map;
pub mod obstacle;
pub mod player;
pub mod projection;
pub mod rectangle;
pub mod startmenu;

verus! {

/// The width of the craft.
pub const PLAYER_WIDTH: u32 = 25_000;

} // verus!
