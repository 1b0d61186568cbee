//! Scenario tests for the collision resolver.

use kinematic_controller::body::{CharacterBody, TimeStep};
use kinematic_controller::collider::{ColliderClass, ColliderRegistry};
use kinematic_controller::contact::{ContactManifold, ContactPoint};
use kinematic_controller::math::{Vec2, SCALE};
use kinematic_controller::resolver::{check_climbable, kinematic_controller_collisions};

const PLAYER: u64 = 100;
const GROUND: u64 = 1;
const SENSOR: u64 = 2;
const CRATE_BODY: u64 = 3;

fn registry() -> ColliderRegistry {
    let mut r = ColliderRegistry::new();
    r.register(GROUND, ColliderClass::Ground);
    r.register(SENSOR, ColliderClass::Sensor);
    r.register(CRATE_BODY, ColliderClass::Dynamic);
    r
}

fn manifold(c1: u64, c2: u64, nx: i64, ny: i64, pens: &[i64]) -> ContactManifold {
    ContactManifold {
        collider1: c1,
        collider2: c2,
        normal: Vec2::new(nx, ny),
        points: pens.iter().map(|&p| ContactPoint { penetration: p }).collect(),
    }
}

fn body_with_velocity(px: i64, py: i64, vx: i64, vy: i64) -> CharacterBody {
    let mut b = CharacterBody::new(Vec2::new(px, py));
    b.velocity = Vec2::new(vx, vy);
    b
}

fn sixty_hz() -> TimeStep {
    TimeStep::new(1, 60)
}

/// The worked speculative example: approaching flat ground at 450 units/s
/// with a 0.2-unit gap and a 60 Hz step leaves exactly -12 units/s.
#[test]
fn test_speculative_concrete_scenario() {
    let mut body = body_with_velocity(0, 500_000, 0, -450_000_000);
    let manifolds = vec![manifold(PLAYER, GROUND, 0, SCALE, &[-200_000])];
    kinematic_controller_collisions(&mut body, PLAYER, &manifolds, &registry(), &sixty_hz());
    assert_eq!(body.velocity.y, -12_000_000);
    assert_eq!(body.velocity.x, 0);
    // No penetrating point, so the position is untouched.
    assert_eq!(body.position, Vec2::new(0, 500_000));
}

/// A vertical wall zeroes the velocity component along its normal exactly
/// and keeps the tangential component; penetration pushes the body out.
#[test]
fn test_wall_slide_vertical() {
    let mut body = body_with_velocity(0, 0, -3_000_000, -2_000_000);
    let manifolds = vec![manifold(PLAYER, GROUND, SCALE, 0, &[100_000])];
    kinematic_controller_collisions(&mut body, PLAYER, &manifolds, &registry(), &sixty_hz());
    assert_eq!(body.velocity.x, 0);
    assert_eq!(body.velocity.y, -2_000_000);
    assert_eq!(body.position, Vec2::new(100_000, 0));
}

/// A body already moving away from a penetrating wall keeps its velocity;
/// only the push-out happens.
#[test]
fn test_wall_slide_moving_away() {
    let mut body = body_with_velocity(0, 0, 5_000_000, 1_000_000);
    let manifolds = vec![manifold(PLAYER, GROUND, SCALE, 0, &[100_000])];
    kinematic_controller_collisions(&mut body, PLAYER, &manifolds, &registry(), &sixty_hz());
    assert_eq!(body.velocity, Vec2::new(5_000_000, 1_000_000));
    assert_eq!(body.position, Vec2::new(100_000, 0));
}

/// Slope snap on a climbable slope: the vertical velocity is raised to
/// the slope tangent times the horizontal speed, exactly.
#[test]
fn test_slope_snap_exact() {
    // Normal leaning 0.25 to the right: tangent 0.25, within the 15-degree
    // threshold (tan 15 is roughly 0.268).
    assert!(check_climbable(250_000, SCALE));
    let mut body = body_with_velocity(0, 0, 4_000_000, -5_000_000);
    let manifolds = vec![manifold(PLAYER, GROUND, 250_000, SCALE, &[50_000])];
    kinematic_controller_collisions(&mut body, PLAYER, &manifolds, &registry(), &sixty_hz());
    // Target: -(4 * 0.25) = -1 unit/s; the old -5 is raised to it.
    assert_eq!(body.velocity.y, -1_000_000);
    assert_eq!(body.velocity.x, 4_000_000);
    assert_eq!(body.position, Vec2::new(12_500, 50_000));
}

/// The snap never lowers an already steeper ascent.
#[test]
fn test_slope_snap_keeps_steeper_ascent() {
    let mut body = body_with_velocity(0, 0, 4_000_000, 3_000_000);
    let manifolds = vec![manifold(PLAYER, GROUND, 250_000, SCALE, &[50_000])];
    kinematic_controller_collisions(&mut body, PLAYER, &manifolds, &registry(), &sixty_hz());
    assert_eq!(body.velocity.y, 3_000_000);
}

/// A separating speculative contact is a no-op.
#[test]
fn test_separating_speculative_no_op() {
    let mut body = body_with_velocity(7, 8, 5_000_000, 2_000_000);
    let manifolds = vec![manifold(PLAYER, GROUND, 0, SCALE, &[-100_000])];
    kinematic_controller_collisions(&mut body, PLAYER, &manifolds, &registry(), &sixty_hz());
    assert_eq!(body.position, Vec2::new(7, 8));
    assert_eq!(body.velocity, Vec2::new(5_000_000, 2_000_000));
}

/// After a pass that settles every contact, a second pass over contacts
/// that neither penetrate nor close is a no-op.
#[test]
fn test_resolver_idempotent_after_settling() {
    let mut body = body_with_velocity(0, -100_000, 0, -3_000_000);
    let first = vec![manifold(PLAYER, GROUND, 0, SCALE, &[100_000])];
    kinematic_controller_collisions(&mut body, PLAYER, &first, &registry(), &sixty_hz());
    // Settled: pushed out of the ground with the fall stopped.
    assert_eq!(body.position, Vec2::new(0, 0));
    assert_eq!(body.velocity, Vec2::new(0, 0));
    let settled = body;
    // The narrow phase now reports the contact as separated.
    let second = vec![manifold(PLAYER, GROUND, 0, SCALE, &[-1])];
    kinematic_controller_collisions(&mut body, PLAYER, &second, &registry(), &sixty_hz());
    assert_eq!(body.position, settled.position);
    assert_eq!(body.velocity, settled.velocity);
}

/// Contacts against dynamic bodies are deliberately skipped whole.
#[test]
fn test_dynamic_contact_skipped() {
    let mut body = body_with_velocity(0, 0, 0, -3_000_000);
    let manifolds = vec![manifold(PLAYER, CRATE_BODY, 0, SCALE, &[100_000])];
    kinematic_controller_collisions(&mut body, PLAYER, &manifolds, &registry(), &sixty_hz());
    assert_eq!(body.position, Vec2::new(0, 0));
    assert_eq!(body.velocity, Vec2::new(0, -3_000_000));
}

/// Contacts against sensors are skipped.
#[test]
fn test_sensor_contact_skipped() {
    let mut body = body_with_velocity(0, 0, 0, -3_000_000);
    let manifolds = vec![manifold(PLAYER, SENSOR, 0, SCALE, &[100_000])];
    kinematic_controller_collisions(&mut body, PLAYER, &manifolds, &registry(), &sixty_hz());
    assert_eq!(body.velocity, Vec2::new(0, -3_000_000));
    assert_eq!(body.position, Vec2::new(0, 0));
}

/// A collider that despawned mid-step (no registry record) is skipped.
#[test]
fn test_stale_collider_skipped() {
    let mut body = body_with_velocity(0, 0, 0, -3_000_000);
    let manifolds = vec![manifold(PLAYER, 999, 0, SCALE, &[100_000])];
    kinematic_controller_collisions(&mut body, PLAYER, &manifolds, &registry(), &sixty_hz());
    assert_eq!(body.velocity, Vec2::new(0, -3_000_000));
}

/// A manifold not touching the character at all is ignored.
#[test]
fn test_unrelated_manifold_skipped() {
    let mut body = body_with_velocity(0, 0, 0, -3_000_000);
    let manifolds = vec![manifold(SENSOR, GROUND, 0, SCALE, &[100_000])];
    kinematic_controller_collisions(&mut body, PLAYER, &manifolds, &registry(), &sixty_hz());
    assert_eq!(body.velocity, Vec2::new(0, -3_000_000));
}

/// A zero-length normal is degenerate geometry: skipped defensively.
#[test]
fn test_degenerate_normal_skipped() {
    let mut body = body_with_velocity(0, 0, 0, -3_000_000);
    let manifolds = vec![manifold(PLAYER, GROUND, 0, 0, &[100_000])];
    kinematic_controller_collisions(&mut body, PLAYER, &manifolds, &registry(), &sixty_hz());
    assert_eq!(body.velocity, Vec2::new(0, -3_000_000));
}

/// A manifold without contact points carries no contact data: skipped.
#[test]
fn test_empty_points_manifold_skipped() {
    let mut body = body_with_velocity(0, 0, 0, -3_000_000);
    let manifolds = vec![manifold(PLAYER, GROUND, 0, SCALE, &[])];
    kinematic_controller_collisions(&mut body, PLAYER, &manifolds, &registry(), &sixty_hz());
    assert_eq!(body.velocity, Vec2::new(0, -3_000_000));
}

/// When the character occupies the second slot, the stored normal points
/// from it toward the other collider and is flipped before use.
#[test]
fn test_normal_orientation_flipped_when_second() {
    let mut body = body_with_velocity(0, -100_000, 0, -3_000_000);
    // Ground is first, character second: the stored normal points from
    // the character toward the ground, straight down.
    let manifolds = vec![manifold(GROUND, PLAYER, 0, -SCALE, &[100_000])];
    kinematic_controller_collisions(&mut body, PLAYER, &manifolds, &registry(), &sixty_hz());
    // Oriented upward: the body is pushed up and its fall stops.
    assert_eq!(body.position, Vec2::new(0, 0));
    assert_eq!(body.velocity, Vec2::new(0, 0));
}

/// Nearly coincident points are corrected independently, never
/// deduplicated: a two-point manifold pushes the body out twice.
#[test]
fn test_multi_point_push_double_counts() {
    let mut body = body_with_velocity(0, 0, 0, 0);
    let manifolds = vec![manifold(PLAYER, GROUND, 0, SCALE, &[100_000, 100_000])];
    kinematic_controller_collisions(&mut body, PLAYER, &manifolds, &registry(), &sixty_hz());
    assert_eq!(body.position, Vec2::new(0, 200_000));
}

/// On a wall, a speculative impulse may not drag the body upward: its
/// positive vertical part is kept, the negative part is clamped away.
#[test]
fn test_wall_speculative_exact() {
    // A 53-degree surface: a wall, not a climbable slope.
    assert!(!check_climbable(800_000, 600_000));
    let mut body = body_with_velocity(0, 0, -5_000_000, 0);
    let manifolds = vec![manifold(PLAYER, GROUND, 800_000, 600_000, &[-100_000])];
    kinematic_controller_collisions(&mut body, PLAYER, &manifolds, &registry(), &sixty_hz());
    // normal speed = -4; gap rate = -6; magnitude = 2; impulse (1.6, 1.2).
    assert_eq!(body.velocity.x, -6_600_000);
    assert_eq!(body.velocity.y, -1_200_000);
}

/// The climb threshold sits at 15 degrees: just under is a slope, well
/// over is a wall, and a downward-facing surface is never climbable.
#[test]
fn test_climb_threshold() {
    assert!(check_climbable(0, SCALE));
    assert!(check_climbable(267_949, SCALE));
    assert!(check_climbable(-267_949, SCALE));
    assert!(!check_climbable(267_950, SCALE));
    assert!(!check_climbable(500_000, SCALE));
    assert!(!check_climbable(0, -SCALE));
    assert!(!check_climbable(SCALE, 0));
}

/// Manifolds are resolved in order within one pass.
#[test]
fn test_two_manifolds_in_one_pass() {
    let mut body = body_with_velocity(0, -100_000, -3_000_000, -3_000_000);
    let manifolds = vec![
        manifold(PLAYER, GROUND, 0, SCALE, &[100_000]),
        manifold(PLAYER, GROUND, SCALE, 0, &[50_000]),
    ];
    kinematic_controller_collisions(&mut body, PLAYER, &manifolds, &registry(), &sixty_hz());
    // Flat ground stops the fall, then the wall stops the leftward run.
    assert_eq!(body.position, Vec2::new(50_000, 0));
    assert_eq!(body.velocity, Vec2::new(0, 0));
}

/// A state far beyond any playable coordinate is outside the working
/// guard: the resolver skips the manifold defensively.
#[test]
fn test_out_of_guard_state_skipped() {
    let mut body = body_with_velocity(2_000_000_000_000_000, 0, 0, -3_000_000);
    let manifolds = vec![manifold(PLAYER, GROUND, 0, SCALE, &[100_000])];
    kinematic_controller_collisions(&mut body, PLAYER, &manifolds, &registry(), &sixty_hz());
    assert_eq!(body.position, Vec2::new(2_000_000_000_000_000, 0));
    assert_eq!(body.velocity, Vec2::new(0, -3_000_000));
}
