//! The character controller and its fixed physics step.
//!
//! The three stages run strictly ordered, once per tick: ground
//! detection, gravity integration, collision resolution. The step is
//! synchronous and deterministic: the same contact set and time delta
//! always produce the same state.

use crate::body::{CharacterBody, GravityController, TimeStep, GRAVITY_LIMIT, SPEED_LIMIT};
use crate::collider::ColliderRegistry;
use crate::contact::ContactManifold;
use crate::gravity::{apply_gravity, integrate_gravity};
use crate::ground::{ground_hit_exists, update_grounded, GroundCaster};
use crate::math::{Vec2, SCALE};
use crate::resolver::{
    kinematic_controller_collisions, resolve_all_spec, state_of, KinematicState,
};
use vstd::prelude::*;

verus! {

/// One fixed physics step on a character body: recompute the grounded
/// flag from this step's cast hits, integrate gravity, then resolve this
/// step's contact manifolds in order.
pub fn physics_step(
    body: &mut CharacterBody,
    gravity: &GravityController,
    character_id: u64,
    hits: &Vec<u64>,
    manifolds: &Vec<ContactManifold>,
    registry: &ColliderRegistry,
    dt: &TimeStep,
)
    requires
        gravity.wf(),
        dt.wf(),
        -SPEED_LIMIT <= old(body).velocity.y <= SPEED_LIMIT,
    ensures
        final(body).grounded == ground_hit_exists(hits@, registry.entries@),
        ({
            let grounded = ground_hit_exists(hits@, registry.entries@);
            let vy = integrate_gravity(old(body).velocity.y as int, grounded, *gravity, *dt);
            state_of(*final(body)) == resolve_all_spec(
                KinematicState {
                    px: old(body).position.x as int,
                    py: old(body).position.y as int,
                    vx: old(body).velocity.x as int,
                    vy: vy,
                },
                manifolds@,
                character_id,
                registry.entries@,
                *dt,
            )
        }),
{
    update_grounded(body, hits, registry);
    apply_gravity(body, gravity, dt);
    kinematic_controller_collisions(body, character_id, manifolds, registry, dt);
}

/// A kinematic character controller: the body it drives, its gravity
/// parameters, and the configuration of its downward ground cast.
#[derive(Clone, Copy, Debug, PartialEq, Eq, Structural)]
pub struct CharacterController {
    pub body: CharacterBody,
    pub gravity: GravityController,
    pub caster: GroundCaster,
}

impl CharacterController {
    /// A controller at `position`: body at rest, stock gravity, and the
    /// stock ground caster.
    pub fn new(position: Vec2) -> (c: CharacterController)
        ensures
            c.body.position == position,
            c.body.velocity.x == 0 && c.body.velocity.y == 0,
            !c.body.grounded,
            c.gravity.jump_gravity == 300 * SCALE,
            c.gravity.fall_gravity == 300 * SCALE,
            c.gravity.terminal_velocity == 200 * SCALE,
            c.gravity.wf(),
            c.caster.shape_scale * 100 == 99 * SCALE,
            c.caster.max_distance == SCALE,
            c.caster.max_hits == 5,
    {
        CharacterController {
            body: CharacterBody::new(position),
            gravity: GravityController::default(),
            caster: GroundCaster::new(),
        }
    }

    /// The same controller with the gravity parameters replaced.
    pub fn with_gravity(self, jump_gravity: i64, fall_gravity: i64, terminal_velocity: i64) -> (c:
        CharacterController)
        requires
            0 <= jump_gravity <= GRAVITY_LIMIT,
            0 <= fall_gravity <= GRAVITY_LIMIT,
            0 <= terminal_velocity <= GRAVITY_LIMIT,
        ensures
            c.body == self.body,
            c.caster == self.caster,
            c.gravity.jump_gravity == jump_gravity,
            c.gravity.fall_gravity == fall_gravity,
            c.gravity.terminal_velocity == terminal_velocity,
            c.gravity.wf(),
    {
        CharacterController {
            body: self.body,
            gravity: GravityController::new(jump_gravity, fall_gravity, terminal_velocity),
            caster: self.caster,
        }
    }

    /// Run one fixed physics step of this controller.
    pub fn step(
        &mut self,
        character_id: u64,
        hits: &Vec<u64>,
        manifolds: &Vec<ContactManifold>,
        registry: &ColliderRegistry,
        dt: &TimeStep,
    )
        requires
            dt.wf(),
            old(self).gravity.wf(),
            -SPEED_LIMIT <= old(self).body.velocity.y <= SPEED_LIMIT,
        ensures
            final(self).gravity == old(self).gravity,
            final(self).caster == old(self).caster,
            final(self).body.grounded == ground_hit_exists(hits@, registry.entries@),
            ({
                let grounded = ground_hit_exists(hits@, registry.entries@);
                let vy = integrate_gravity(
                    old(self).body.velocity.y as int,
                    grounded,
                    old(self).gravity,
                    *dt,
                );
                state_of(final(self).body) == resolve_all_spec(
                    KinematicState {
                        px: old(self).body.position.x as int,
                        py: old(self).body.position.y as int,
                        vx: old(self).body.velocity.x as int,
                        vy: vy,
                    },
                    manifolds@,
                    character_id,
                    registry.entries@,
                    *dt,
                )
            }),
    {
        let gravity = self.gravity;
        physics_step(&mut self.body, &gravity, character_id, hits, manifolds, registry, dt);
    }
}

} // verus!
