//! Tests for movement intent, jumping, the coyote timer, and the full
//! physics step, including the resting-equilibrium scenario.

use kinematic_controller::body::{CharacterBody, TimeStep};
use kinematic_controller::collider::{ColliderClass, ColliderRegistry};
use kinematic_controller::contact::{ContactManifold, ContactPoint};
use kinematic_controller::math::{Vec2, SCALE};
use kinematic_controller::movement::{
    can_start_jump, jump, movement, update_coyote_timer, CoyoteTimer, JumpAmount, JumpImpulse,
    MovementBundle, MovementSpeed,
};
use kinematic_controller::step::{physics_step, CharacterController};

const PLAYER: u64 = 100;
const GROUND: u64 = 1;

fn registry() -> ColliderRegistry {
    let mut r = ColliderRegistry::new();
    r.register(GROUND, ColliderClass::Ground);
    r
}

fn sixty_hz() -> TimeStep {
    TimeStep::new(1, 60)
}

#[test]
fn test_movement_sets_horizontal_velocity() {
    let speed = MovementSpeed(30_000_000);
    let mut body = CharacterBody::new(Vec2::new(0, 0));
    movement(&mut body, 1, speed, false);
    assert_eq!(body.velocity.x, 30_000_000);
    movement(&mut body, -1, speed, false);
    assert_eq!(body.velocity.x, -30_000_000);
    movement(&mut body, 0, speed, false);
    assert_eq!(body.velocity.x, 0);
}

#[test]
fn test_movement_dead_body_stops() {
    let mut body = CharacterBody::new(Vec2::new(0, 0));
    body.velocity = Vec2::new(30_000_000, -4_000_000);
    movement(&mut body, 1, MovementSpeed(30_000_000), true);
    assert_eq!(body.velocity.x, 0);
    assert_eq!(body.velocity.y, -4_000_000);
}

#[test]
fn test_jump_sets_impulse_and_consumes() {
    let mut body = CharacterBody::new(Vec2::new(0, 0));
    let mut amount = JumpAmount { max: 2, remaining: 2 };
    jump(&mut body, &mut amount, JumpImpulse(7_000_000));
    assert_eq!(body.velocity.y, 7_000_000);
    assert_eq!(amount.remaining, 1);
}

#[test]
fn test_jump_saturates_at_zero() {
    let mut body = CharacterBody::new(Vec2::new(0, 0));
    let mut amount = JumpAmount { max: 2, remaining: 0 };
    jump(&mut body, &mut amount, JumpImpulse(7_000_000));
    assert_eq!(body.velocity.y, 7_000_000);
    assert_eq!(amount.remaining, 0);
}

#[test]
fn test_jump_amount_reset() {
    let mut amount = JumpAmount { max: 3, remaining: 0 };
    amount.reset();
    assert_eq!(amount.remaining, 3);
}

#[test]
fn test_coyote_timer_ticks_and_saturates() {
    let mut timer = CoyoteTimer::default();
    assert!(timer.can_jump());
    // One 60 Hz step is 16_666 fixed-point seconds (truncated).
    timer.tick(&sixty_hz());
    assert_eq!(timer.elapsed, 16_666);
    for _ in 0..5 {
        timer.tick(&sixty_hz());
    }
    assert_eq!(timer.elapsed, 99_996);
    assert!(timer.can_jump());
    timer.tick(&sixty_hz());
    // Saturates at the 0.1 s duration.
    assert_eq!(timer.elapsed, 100_000);
    assert!(!timer.can_jump());
}

#[test]
fn test_update_coyote_timer_grounded_resets() {
    let mut timer = CoyoteTimer::default();
    timer.tick(&sixty_hz());
    update_coyote_timer(&mut timer, true, &sixty_hz());
    assert_eq!(timer.elapsed, 0);
    update_coyote_timer(&mut timer, false, &sixty_hz());
    assert_eq!(timer.elapsed, 16_666);
}

#[test]
fn test_can_start_jump_logic() {
    let fresh = CoyoteTimer::default();
    let expired = CoyoteTimer { elapsed: 100_000, duration: 100_000 };
    assert!(can_start_jump(true, true, &expired));
    assert!(can_start_jump(true, false, &fresh));
    assert!(!can_start_jump(true, false, &expired));
    assert!(!can_start_jump(false, true, &fresh));
}

#[test]
fn test_movement_bundle_defaults() {
    let bundle = MovementBundle::default();
    assert_eq!(bundle.speed.0, 30 * SCALE);
    assert_eq!(bundle.jump_impulse.0, 7 * SCALE);
    assert_eq!(bundle.jump_amount.remaining, 0);
    assert_eq!(bundle.coyote_timer.duration, 100_000);
}

#[test]
fn test_character_controller_new_and_with_gravity() {
    let c = CharacterController::new(Vec2::new(1, 2)).with_gravity(
        100_000_000,
        400_000_000,
        150_000_000,
    );
    assert_eq!(c.body.position, Vec2::new(1, 2));
    assert_eq!(c.body.velocity, Vec2::new(0, 0));
    assert!(!c.body.grounded);
    assert_eq!(c.gravity.jump_gravity, 100_000_000);
    assert_eq!(c.gravity.fall_gravity, 400_000_000);
    assert_eq!(c.gravity.terminal_velocity, 150_000_000);
    assert_eq!(c.caster.shape_scale, 990_000);
}

/// Resting equilibrium: dropped onto flat ground, the body converges to
/// grounded with zero vertical velocity within a bounded number of steps,
/// and stays there.
#[test]
fn test_resting_equilibrium_drop() {
    // The ground surface is at y = 0; the body starts 3 units above it
    // with a downward push, and the test plays the narrow phase: a hit
    // when the cast reaches the ground, a manifold when the gap is short.
    let mut controller = CharacterController::new(Vec2::new(0, 3 * SCALE));
    controller.body.velocity.y = -2 * SCALE;
    let registry = registry();
    let dt = sixty_hz();
    let mut settled_at = None;
    for step_index in 0..300 {
        let gap = controller.body.position.y;
        let hits = if gap <= SCALE { vec![GROUND] } else { vec![] };
        let manifolds = if gap <= SCALE / 2 {
            vec![ContactManifold {
                collider1: PLAYER,
                collider2: GROUND,
                normal: Vec2::new(0, SCALE),
                points: vec![ContactPoint { penetration: -gap }],
            }]
        } else {
            vec![]
        };
        controller.step(PLAYER, &hits, &manifolds, &registry, &dt);
        // The host integrates the kinematic position from the velocity.
        controller.body.position.y += controller.body.velocity.y / 60;
        controller.body.position.x += controller.body.velocity.x / 60;
        if controller.body.grounded && controller.body.velocity.y == 0 {
            settled_at = Some(step_index);
            break;
        }
    }
    let settled_at = settled_at.expect("the body never came to rest");
    assert!(settled_at < 60, "took too long to settle: {settled_at} steps");
    // Once settled, further steps change nothing.
    let rest = controller.body;
    for _ in 0..10 {
        let hits = vec![GROUND];
        let manifolds = vec![ContactManifold {
            collider1: PLAYER,
            collider2: GROUND,
            normal: Vec2::new(0, SCALE),
            points: vec![ContactPoint { penetration: -controller.body.position.y }],
        }];
        controller.step(PLAYER, &hits, &manifolds, &registry, &dt);
        controller.body.position.y += controller.body.velocity.y / 60;
    }
    assert_eq!(controller.body.position, rest.position);
    assert_eq!(controller.body.velocity, rest.velocity);
    assert!(controller.body.grounded);
}

/// The full step pipeline: detection, gravity, resolution, in order.
#[test]
fn test_physics_step_composition() {
    let mut body = CharacterBody::new(Vec2::new(0, 400_000));
    body.velocity.y = -1_000_000;
    let gravity = kinematic_controller::body::GravityController::default();
    // Grounded by the cast, so gravity is skipped; the speculative
    // contact cancels the closing velocity to land exactly.
    let hits = vec![GROUND];
    let manifolds = vec![ContactManifold {
        collider1: PLAYER,
        collider2: GROUND,
        normal: Vec2::new(0, SCALE),
        points: vec![ContactPoint { penetration: -400_000 }],
    }];
    physics_step(&mut body, &gravity, PLAYER, &hits, &manifolds, &registry(), &sixty_hz());
    assert!(body.grounded);
    // normal speed -1; gap rate -24; the impulse is upward only, so the
    // climbable branch removes nothing negative... the closing part is
    // cancelled up to the gap rate.
    assert_eq!(body.velocity.y, -1_000_000 - (-1_000_000 - (-24_000_000)).min(0));
}
