//! Horizontal movement intent, jumping, and the coyote grace period.
//!
//! An input-mapping collaborator turns device input into a horizontal
//! direction (`-1 | 0 | 1`) and a jump trigger; only the resulting
//! velocity changes belong to this core.

use crate::body::{CharacterBody, TimeStep, COORD_LIMIT};
use crate::math::{div_trunc, mul_div_trunc, SCALE};
use vstd::math::min;
use vstd::prelude::*;

verus! {

/// The longest accepted coyote-timer duration (one million seconds).
pub const TIMER_LIMIT: i64 = 1_000_000_000_000;

/// The speed used for character movement (fixed point, units per second).
#[derive(Clone, Copy, Debug, PartialEq, Eq, Structural)]
pub struct MovementSpeed(pub i64);

/// The strength of a jump: the vertical velocity it sets.
#[derive(Clone, Copy, Debug, PartialEq, Eq, Structural)]
pub struct JumpImpulse(pub i64);

/// How many jumps the player can still make before landing again.
#[derive(Clone, Copy, Debug, Default, PartialEq, Eq, Structural)]
pub struct JumpAmount {
    pub max: u32,
    pub remaining: u32,
}

impl JumpAmount {
    /// Refill the remaining jumps to the maximum.
    pub fn reset(&mut self)
        ensures
            final(self).max == old(self).max,
            final(self).remaining == old(self).max,
    {
        self.remaining = self.max;
    }
}

/// The coyote timer: a short grace period after leaving the ground during
/// which a jump is still allowed. Time is fixed point, [`SCALE`] per
/// second.
#[derive(Clone, Copy, Debug, PartialEq, Eq, Structural)]
pub struct CoyoteTimer {
    pub elapsed: i64,
    pub duration: i64,
}

impl CoyoteTimer {
    /// A usable timer: elapsed time within the bounded duration.
    pub open spec fn wf(self) -> bool {
        0 <= self.elapsed <= self.duration <= TIMER_LIMIT
    }

    /// Whether the grace period still runs.
    pub fn can_jump(&self) -> (b: bool)
        ensures
            b == (self.elapsed < self.duration),
    {
        self.elapsed < self.duration
    }

    /// Restart the grace period.
    pub fn reset_timer(&mut self)
        ensures
            final(self).elapsed == 0,
            final(self).duration == old(self).duration,
    {
        self.elapsed = 0;
    }

    /// Advance the timer by one step, saturating at its duration.
    pub fn tick(&mut self, dt: &TimeStep)
        requires
            dt.wf(),
            old(self).wf(),
        ensures
            final(self).duration == old(self).duration,
            final(self).elapsed == min(
                old(self).elapsed + div_trunc(dt.num * SCALE, dt.den as int),
                old(self).duration as int,
            ),
            final(self).wf(),
    {
        proof {
            crate::math::lemma_div_trunc_facts(dt.num as int * SCALE as int, dt.den as int);
            assert(0 <= (dt.num as int) * (SCALE as int) <= 1_000_000_000_000) by (nonlinear_arith)
                requires
                    0 < dt.num <= 1_000_000,
                    SCALE == 1_000_000,
            ;
        }
        let step = mul_div_trunc(dt.num, SCALE, dt.den);
        let advanced = self.elapsed + step;
        if advanced > self.duration {
            self.elapsed = self.duration;
        } else {
            self.elapsed = advanced;
        }
    }
}

impl Default for CoyoteTimer {
    /// The stock grace period: a tenth of a second, freshly started.
    fn default() -> (t: CoyoteTimer)
        ensures
            t.elapsed == 0,
            t.duration * 10 == SCALE,
            t.wf(),
    {
        CoyoteTimer { elapsed: 0, duration: 100_000 }
    }
}

/// The movement components a character is built with: speed, jump
/// strength, jump budget, and the coyote timer.
#[derive(Clone, Copy, Debug, PartialEq, Eq, Structural)]
pub struct MovementBundle {
    pub speed: MovementSpeed,
    pub jump_impulse: JumpImpulse,
    pub jump_amount: JumpAmount,
    pub coyote_timer: CoyoteTimer,
}

impl MovementBundle {
    /// Build the bundle from a speed and a jump impulse; the jump budget
    /// starts empty and the coyote timer at its stock duration.
    pub fn new(speed: i64, jump_impulse: i64) -> (b: MovementBundle)
        ensures
            b.speed.0 == speed,
            b.jump_impulse.0 == jump_impulse,
            b.jump_amount.max == 0,
            b.jump_amount.remaining == 0,
            b.coyote_timer.elapsed == 0,
            b.coyote_timer.duration * 10 == SCALE,
            b.coyote_timer.wf(),
    {
        MovementBundle {
            speed: MovementSpeed(speed),
            jump_impulse: JumpImpulse(jump_impulse),
            jump_amount: JumpAmount { max: 0, remaining: 0 },
            coyote_timer: CoyoteTimer::default(),
        }
    }
}

impl Default for MovementBundle {
    /// The stock tuning: 30 units/s of movement speed and a jump impulse
    /// of 7 units/s.
    fn default() -> (b: MovementBundle)
        ensures
            b.speed.0 == 30 * SCALE,
            b.jump_impulse.0 == 7 * SCALE,
            b.jump_amount.max == 0,
            b.jump_amount.remaining == 0,
            b.coyote_timer.elapsed == 0,
            b.coyote_timer.wf(),
    {
        MovementBundle::new(30_000_000, 7_000_000)
    }
}

/// Update the coyote timer for this frame: restarted while grounded,
/// advanced while airborne.
pub fn update_coyote_timer(timer: &mut CoyoteTimer, grounded: bool, dt: &TimeStep)
    requires
        dt.wf(),
        old(timer).wf(),
    ensures
        final(timer).duration == old(timer).duration,
        grounded ==> final(timer).elapsed == 0,
        !grounded ==> final(timer).elapsed == min(
            old(timer).elapsed + div_trunc(dt.num * SCALE, dt.den as int),
            old(timer).duration as int,
        ),
        final(timer).wf(),
{
    if grounded {
        timer.reset_timer();
    } else {
        timer.tick(dt);
    }
}

/// Apply the horizontal movement intent: the horizontal velocity becomes
/// `direction * speed`; a dead body stops horizontally instead. Nothing
/// else changes.
pub fn movement(body: &mut CharacterBody, direction: i64, speed: MovementSpeed, dead: bool)
    requires
        -1 <= direction <= 1,
        0 <= speed.0 <= COORD_LIMIT,
    ensures
        dead ==> final(body).velocity.x == 0,
        !dead ==> final(body).velocity.x == direction * speed.0,
        final(body).velocity.y == old(body).velocity.y,
        final(body).position == old(body).position,
        final(body).grounded == old(body).grounded,
{
    if dead {
        body.velocity.x = 0;
        return ;
    }
    proof {
        vstd::arithmetic::mul::lemma_mul_basics(speed.0 as int);
        vstd::arithmetic::mul::lemma_mul_unary_negation(1, speed.0 as int);
    }
    if direction == 1 {
        body.velocity.x = speed.0;
    } else if direction == -1 {
        body.velocity.x = -speed.0;
    } else {
        body.velocity.x = 0;
    }
}

/// Whether a jump may start this frame: the jump was pressed and the body
/// is grounded or still within the coyote grace period.
pub fn can_start_jump(pressed: bool, grounded: bool, timer: &CoyoteTimer) -> (b: bool)
    ensures
        b == (pressed && (grounded || timer.elapsed < timer.duration)),
{
    pressed && (grounded || timer.can_jump())
}

/// Perform a jump: the vertical velocity becomes the jump impulse and one
/// remaining jump is consumed, saturating at zero.
pub fn jump(body: &mut CharacterBody, amount: &mut JumpAmount, impulse: JumpImpulse)
    ensures
        final(body).velocity.y == impulse.0,
        final(body).velocity.x == old(body).velocity.x,
        final(body).position == old(body).position,
        final(body).grounded == old(body).grounded,
        final(amount).max == old(amount).max,
        final(amount).remaining == (if old(amount).remaining > 0 {
            old(amount).remaining - 1
        } else {
            0
        }),
{
    body.velocity.y = impulse.0;
    if amount.remaining > 0 {
        amount.remaining = amount.remaining - 1;
    }
}

} // verus!
