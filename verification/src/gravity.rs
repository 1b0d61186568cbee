//! Gravity integration for bodies that are not grounded.

use crate::body::{CharacterBody, GravityController, TimeStep, SPEED_LIMIT};
use crate::math::{div_trunc, lemma_div_trunc_facts, mul_div_trunc};
use vstd::prelude::*;

verus! {

/// The vertical velocity after one gravity step. A grounded body receives
/// no gravity. Otherwise the magnitude is `jump_gravity` while ascending
/// and `fall_gravity` while descending, one step of it is subtracted, and
/// the result is clamped to the terminal velocity, preserving its sign.
pub open spec fn integrate_gravity(vy: int, grounded: bool, g: GravityController, dt: TimeStep)
    -> int {
    if grounded {
        vy
    } else {
        let magnitude = if vy > 0 {
            g.jump_gravity as int
        } else {
            g.fall_gravity as int
        };
        let fallen = vy - div_trunc(magnitude * dt.num, dt.den as int);
        if fallen > g.terminal_velocity {
            g.terminal_velocity as int
        } else if fallen < -g.terminal_velocity {
            -g.terminal_velocity as int
        } else {
            fallen
        }
    }
}

/// Apply one step of gravity to the body's vertical velocity.
///
/// Only the vertical velocity changes, and once the body is airborne its
/// magnitude never exceeds the terminal velocity.
pub fn apply_gravity(body: &mut CharacterBody, gravity: &GravityController, dt: &TimeStep)
    requires
        gravity.wf(),
        dt.wf(),
        -SPEED_LIMIT <= old(body).velocity.y <= SPEED_LIMIT,
    ensures
        final(body).velocity.y as int == integrate_gravity(
            old(body).velocity.y as int,
            old(body).grounded,
            *gravity,
            *dt,
        ),
        final(body).velocity.x == old(body).velocity.x,
        final(body).position == old(body).position,
        final(body).grounded == old(body).grounded,
        !old(body).grounded ==> -gravity.terminal_velocity <= final(body).velocity.y
            <= gravity.terminal_velocity,
{
    if body.grounded {
        return ;
    }
    let magnitude = if body.velocity.y > 0 {
        gravity.jump_gravity
    } else {
        gravity.fall_gravity
    };
    proof {
        assert(0 <= (magnitude as int) * (dt.num as int) <= 1_000_000_000_000_000_000)
            by (nonlinear_arith)
            requires
                0 <= magnitude as int <= 1_000_000_000_000,
                0 < dt.num as int <= 1_000_000,
        ;
        lemma_div_trunc_facts(magnitude as int * dt.num as int, dt.den as int);
    }
    let step = mul_div_trunc(magnitude, dt.num, dt.den);
    let fallen = body.velocity.y - step;
    if fallen > gravity.terminal_velocity {
        body.velocity.y = gravity.terminal_velocity;
    } else if fallen < -gravity.terminal_velocity {
        body.velocity.y = -gravity.terminal_velocity;
    } else {
        body.velocity.y = fallen;
    }
}

} // verus!
