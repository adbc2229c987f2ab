//! Simulation core of a small arcade lander: a player-controlled craft
//! thrusts against gravity and drag, dodges falling hazards, and tries to
//! rest on a randomly placed landing pad, while a mode machine sequences
//! menu, play, pause, loss and restart.
//!
//! Every continuous quantity (positions, velocities, elapsed time) is held
//! in fixed-point form: an `i64` counting thousandths of a cell or of a
//! millisecond ("milli-units"), so that the whole simulation is exact
//! integer arithmetic.

use vstd::prelude::*;

pub mod character;
pub mod hazards;
pub mod map;
pub mod rng;
pub mod state;

verus! {

/// Width of the playfield, in cells.
pub const SCREEN_WIDTH: i64 = 80;

/// Height of the playfield, in cells.
pub const SCREEN_HEIGHT: i64 = 50;

/// One cell, in milli-units.
pub const MILLI: i64 = 1000;

/// Bound on every simulated coordinate, momentum and visual angle, in
/// milli-units: generous enough never to constrain play, tight enough that
/// all the arithmetic of a step fits comfortably in an `i64`.
pub const COORD_LIMIT: i64 = 1000000000;

/// A point of the playfield, in milli-cells.
#[derive(Clone, Copy, PartialEq, Eq, Structural, Debug)]
pub struct Position {
    pub x: i64,
    pub y: i64,
}

} // verus!
