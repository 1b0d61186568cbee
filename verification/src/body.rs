//! The character body and the fixed-step parameters that drive it.

use crate::math::{Vec2, SCALE};
use vstd::prelude::*;

verus! {

/// Coordinates and velocities beyond this guard (a billion world units)
/// are outside any playable world; the resolver skips a manifold rather
/// than run its arithmetic past this bound.
pub const COORD_LIMIT: i64 = 1_000_000_000_000_000;

/// The largest accepted gravity magnitude and terminal velocity
/// (one million world units per second, or per second squared).
pub const GRAVITY_LIMIT: i64 = 1_000_000_000_000;

/// The largest accepted numerator and denominator of a time step.
pub const DT_LIMIT: i64 = 1_000_000;

/// The widest vertical velocity gravity integration accepts: one gravity
/// step beyond it still fits in an `i64` (a machine limit, far past any
/// reachable speed).
pub const SPEED_LIMIT: i64 = 1_000_000_000_000_000_000;

/// The per-step time delta, as the exact rational `num / den` seconds.
/// A fixed 60 Hz step is `1 / 60`, with no rounding anywhere.
#[derive(Clone, Copy, Debug, PartialEq, Eq, Structural)]
pub struct TimeStep {
    pub num: i64,
    pub den: i64,
}

impl TimeStep {
    /// A usable time step: positive and bounded.
    pub open spec fn wf(self) -> bool {
        0 < self.num <= DT_LIMIT && 0 < self.den <= DT_LIMIT
    }

    /// Build a step of `num / den` seconds.
    pub fn new(num: i64, den: i64) -> (t: TimeStep)
        requires
            0 < num <= DT_LIMIT,
            0 < den <= DT_LIMIT,
        ensures
            t.num == num,
            t.den == den,
            t.wf(),
    {
        TimeStep { num, den }
    }
}

/// The gravitational acceleration used for a character controller:
/// one magnitude while ascending, one while descending, and the terminal
/// fall speed the vertical velocity is clamped to.
#[derive(Clone, Copy, Debug, PartialEq, Eq, Structural)]
pub struct GravityController {
    pub jump_gravity: i64,
    pub fall_gravity: i64,
    pub terminal_velocity: i64,
}

impl GravityController {
    /// Usable gravity parameters: nonnegative and bounded.
    pub open spec fn wf(self) -> bool {
        &&& 0 <= self.jump_gravity <= GRAVITY_LIMIT
        &&& 0 <= self.fall_gravity <= GRAVITY_LIMIT
        &&& 0 <= self.terminal_velocity <= GRAVITY_LIMIT
    }

    /// Build gravity parameters from the two magnitudes and the terminal
    /// velocity.
    pub fn new(jump_gravity: i64, fall_gravity: i64, terminal_velocity: i64) -> (g:
        GravityController)
        requires
            0 <= jump_gravity <= GRAVITY_LIMIT,
            0 <= fall_gravity <= GRAVITY_LIMIT,
            0 <= terminal_velocity <= GRAVITY_LIMIT,
        ensures
            g.jump_gravity == jump_gravity,
            g.fall_gravity == fall_gravity,
            g.terminal_velocity == terminal_velocity,
            g.wf(),
    {
        GravityController { jump_gravity, fall_gravity, terminal_velocity }
    }
}

impl Default for GravityController {
    /// The stock tuning: 300 units/s² ascending and descending, with a
    /// terminal velocity of 200 units/s.
    fn default() -> (g: GravityController)
        ensures
            g.jump_gravity == 300 * SCALE,
            g.fall_gravity == 300 * SCALE,
            g.terminal_velocity == 200 * SCALE,
            g.wf(),
    {
        GravityController {
            jump_gravity: 300_000_000,
            fall_gravity: 300_000_000,
            terminal_velocity: 200_000_000,
        }
    }
}

/// The character body this core resolves: position, velocity, and the
/// grounded flag recomputed every step (it does not persist).
#[derive(Clone, Copy, Debug, PartialEq, Eq, Structural)]
pub struct CharacterBody {
    pub position: Vec2,
    pub velocity: Vec2,
    pub grounded: bool,
}

impl CharacterBody {
    /// A body at rest at `position`: zero velocity, not grounded.
    pub fn new(position: Vec2) -> (b: CharacterBody)
        ensures
            b.position == position,
            b.velocity.x == 0,
            b.velocity.y == 0,
            !b.grounded,
    {
        CharacterBody { position, velocity: Vec2 { x: 0, y: 0 }, grounded: false }
    }
}

} // verus!
