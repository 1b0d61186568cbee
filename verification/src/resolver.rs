//! Collision response for the kinematic character: collide-and-slide.
//!
//! For every contact manifold touching the character body, the resolver
//! orients the manifold normal away from the other collider, pushes the
//! body out of penetration point by point, classifies the surface as a
//! climbable slope or a wall by the angle of the normal against world up,
//! and corrects the velocity: snapping to the slope, sliding along the
//! wall, or cancelling the closing part of a speculative contact.
//!
//! The executable resolver is specified exactly by [`resolve_manifold_spec`]
//! and [`resolve_all_spec`]; the laws module derives the behavioural
//! properties from that model.

use crate::body::{CharacterBody, TimeStep, COORD_LIMIT};
use crate::collider::{lookup_class, ColliderClass, ColliderEntry, ColliderRegistry};
use crate::contact::{deepest, ContactManifold, ContactPoint, PEN_LIMIT};
use crate::math::{
    div_trunc, div_up, div_wide_trunc, lemma_div_trunc_facts, lemma_div_trunc_within,
    lemma_div_up_within, mul_div_trunc, mul_div_up, narrow_to_i64, wide_dot, SCALE,
};
use vstd::arithmetic::mul::lemma_mul_unary_negation;
use vstd::math::{abs, max, min};
use vstd::prelude::*;

verus! {

/// Tangent of the steepest climbable slope (15 degrees), as a fixed-point
/// rational: a surface is climbable when the tangent of its normal's
/// angle against world up is at most `MAX_SLOPE_TAN_NUM / MAX_SLOPE_TAN_DEN`.
pub const MAX_SLOPE_TAN_NUM: i64 = 267_949;

/// Denominator of the climb threshold.
pub const MAX_SLOPE_TAN_DEN: i64 = 1_000_000;

/// The part of the body the resolver reads and writes: position and
/// velocity, as mathematical integers.
pub struct KinematicState {
    pub px: int,
    pub py: int,
    pub vx: int,
    pub vy: int,
}

/// The resolver's view of a character body.
pub open spec fn state_of(b: CharacterBody) -> KinematicState {
    KinematicState {
        px: b.position.x as int,
        py: b.position.y as int,
        vx: b.velocity.x as int,
        vy: b.velocity.y as int,
    }
}

/// All four coordinates within the working guard; a state outside it is
/// skipped rather than pushed through the fixed-point arithmetic.
pub open spec fn state_in_guard(s: KinematicState) -> bool {
    &&& -COORD_LIMIT <= s.px <= COORD_LIMIT
    &&& -COORD_LIMIT <= s.py <= COORD_LIMIT
    &&& -COORD_LIMIT <= s.vx <= COORD_LIMIT
    &&& -COORD_LIMIT <= s.vy <= COORD_LIMIT
}

/// Dot product of two vectors given by components.
pub open spec fn dot(ax: int, ay: int, bx: int, by: int) -> int {
    ax * bx + ay * by
}

/// The contact normal oriented away from the other collider: the manifold
/// stores it pointing from the second collider toward the first, so it is
/// flipped when the character is the second.
pub open spec fn oriented_normal(m: ContactManifold, cid: u64) -> (int, int) {
    if m.collider1 == cid {
        (m.normal.x as int, m.normal.y as int)
    } else {
        (-m.normal.x as int, -m.normal.y as int)
    }
}

/// The collider the character is in contact with.
pub open spec fn other_collider(m: ContactManifold, cid: u64) -> u64 {
    if m.collider1 == cid {
        m.collider2
    } else {
        m.collider1
    }
}

/// A manifold receives a response only if it touches the character and
/// the other collider is live, solid ground: sensors are non-solid,
/// dynamic bodies are deliberately skipped, and a stale identifier means
/// the collider despawned mid-step.
pub open spec fn manifold_applies(m: ContactManifold, cid: u64, entries: Seq<ColliderEntry>)
    -> bool {
    &&& m.collider1 == cid || m.collider2 == cid
    &&& lookup_class(entries, other_collider(m, cid)) == Some(ColliderClass::Ground)
}

/// Whether the surface with oriented normal `(nx, ny)` is a climbable
/// slope: its angle against world up is at most the climb threshold.
pub open spec fn climbable(nx: int, ny: int) -> bool {
    ny > 0 && abs(nx) * (MAX_SLOPE_TAN_DEN as int) <= ny * (MAX_SLOPE_TAN_NUM as int)
}

/// Position after pushing the body out along the oriented normal by every
/// point's positive penetration depth, points processed independently.
pub open spec fn push_out(px: int, py: int, nx: int, ny: int, points: Seq<ContactPoint>) -> (
    int,
    int,
)
    decreases points.len(),
{
    if points.len() == 0 {
        (px, py)
    } else {
        let prev = push_out(px, py, nx, ny, points.drop_last());
        let pen = points.last().penetration as int;
        if pen > 0 {
            (
                prev.0 + div_trunc(nx * pen, SCALE as int),
                prev.1 + div_trunc(ny * pen, SCALE as int),
            )
        } else {
            prev
        }
    }
}

/// Velocity after resolving one manifold with oriented normal `(nx, ny)`
/// and deepest penetration `pen`.
///
/// Penetrating climbable slope: the vertical velocity is raised to at
/// least the slope tangent times the horizontal speed toward the slope
/// (rounded up, so the snapped velocity never undershoots the tangent).
/// Penetrating wall: the velocity component along the normal is rejected,
/// unless the body already moves away. Speculative contact: the closing
/// speed plus the remaining gap over the time step is cancelled along the
/// normal; on a climbable slope only its downward part is removed, on a
/// wall the impulse may not drag the body upward.
pub open spec fn resolve_velocity(vx: int, vy: int, nx: int, ny: int, pen: int, dt: TimeStep) -> (
    int,
    int,
) {
    if pen > 0 {
        if climbable(nx, ny) {
            (vx, max(vy, div_up(-(vx * nx), ny)))
        } else {
            let d = dot(vx, vy, nx, ny);
            if d > 0 {
                (vx, vy)
            } else {
                let ds = div_trunc(d, SCALE as int);
                (
                    vx - div_trunc(ds * nx, SCALE as int),
                    vy - div_trunc(ds * ny, SCALE as int),
                )
            }
        }
    } else {
        let ns = div_trunc(dot(vx, vy, nx, ny), SCALE as int);
        if ns >= 0 {
            (vx, vy)
        } else {
            let magnitude = ns - div_trunc(pen * dt.den, dt.num as int);
            let ix = div_trunc(magnitude * nx, SCALE as int);
            let iy = div_trunc(magnitude * ny, SCALE as int);
            if climbable(nx, ny) {
                (vx, vy - min(iy, 0))
            } else {
                (vx - ix, vy - max(iy, 0))
            }
        }
    }
}

/// The state after resolving one manifold: unchanged if the manifold does
/// not apply to the character, is degenerate, or the state is outside the
/// working guard; otherwise pushed out and velocity-corrected.
pub open spec fn resolve_manifold_spec(
    s: KinematicState,
    m: ContactManifold,
    cid: u64,
    entries: Seq<ColliderEntry>,
    dt: TimeStep,
) -> KinematicState {
    if !(m.wf() && state_in_guard(s) && manifold_applies(m, cid, entries)) {
        s
    } else {
        let n = oriented_normal(m, cid);
        let pos = push_out(s.px, s.py, n.0, n.1, m.points@);
        let vel = resolve_velocity(s.vx, s.vy, n.0, n.1, deepest(m.points@), dt);
        KinematicState { px: pos.0, py: pos.1, vx: vel.0, vy: vel.1 }
    }
}

/// The state after resolving a whole list of manifolds, in order.
pub open spec fn resolve_all_spec(
    s: KinematicState,
    manifolds: Seq<ContactManifold>,
    cid: u64,
    entries: Seq<ColliderEntry>,
    dt: TimeStep,
) -> KinematicState
    decreases manifolds.len(),
{
    if manifolds.len() == 0 {
        s
    } else {
        resolve_manifold_spec(
            resolve_all_spec(s, manifolds.drop_last(), cid, entries, dt),
            manifolds.last(),
            cid,
            entries,
            dt,
        )
    }
}

/// Classify an oriented normal: climbable slope or wall.
pub fn check_climbable(nx: i64, ny: i64) -> (b: bool)
    requires
        -SCALE <= nx <= SCALE,
        -SCALE <= ny <= SCALE,
    ensures
        b == climbable(nx as int, ny as int),
{
    if ny <= 0 {
        return false;
    }
    let ax = if nx >= 0 {
        nx
    } else {
        -nx
    };
    ax * MAX_SLOPE_TAN_DEN <= ny * MAX_SLOPE_TAN_NUM
}

/// Resolve one contact manifold against the character body, as
/// [`resolve_manifold_spec`] states. The grounded flag is untouched.
pub fn resolve_manifold(
    body: &mut CharacterBody,
    manifold: &ContactManifold,
    character_id: u64,
    registry: &ColliderRegistry,
    dt: &TimeStep,
)
    requires
        dt.wf(),
    ensures
        state_of(*final(body)) == resolve_manifold_spec(
            state_of(*old(body)),
            *manifold,
            character_id,
            registry.entries@,
            *dt,
        ),
        final(body).grounded == old(body).grounded,
{
    let ghost s0 = state_of(*body);
    // Step 1: find which slot the character occupies; a manifold that does
    // not touch it is not ours.
    let is_first = manifold.collider1 == character_id;
    if !is_first && manifold.collider2 != character_id {
        return ;
    }
    // Step 2: filter. Sensors, dynamic bodies, and stale identifiers get
    // no response.
    let other = if is_first {
        manifold.collider2
    } else {
        manifold.collider1
    };
    let is_ground = match registry.lookup(other) {
        Some(ColliderClass::Ground) => true,
        _ => false,
    };
    if !is_ground {
        return ;
    }
    // Degenerate geometry and out-of-guard states are skipped defensively.
    if !manifold.check_wf() {
        return ;
    }
    if body.position.x < -COORD_LIMIT || body.position.x > COORD_LIMIT || body.position.y
        < -COORD_LIMIT || body.position.y > COORD_LIMIT || body.velocity.x < -COORD_LIMIT
        || body.velocity.x > COORD_LIMIT || body.velocity.y < -COORD_LIMIT || body.velocity.y
        > COORD_LIMIT {
        return ;
    }
    // The oriented normal, pointing away from the other collider.
    let nx: i64;
    let ny: i64;
    if is_first {
        nx = manifold.normal.x;
        ny = manifold.normal.y;
    } else {
        nx = -manifold.normal.x;
        ny = -manifold.normal.y;
    }
    // Step 3: push the body out by every positive penetration depth,
    // points processed independently.
    let ghost v0 = body.velocity;
    let ghost g0 = body.grounded;
    let ghost pts = manifold.points@;
    let mut i: usize = 0;
    while i < manifold.points.len()
        invariant
            i <= pts.len(),
            pts == manifold.points@,
            manifold.wf(),
            -SCALE <= nx <= SCALE,
            -SCALE <= ny <= SCALE,
            body.velocity == v0,
            body.grounded == g0,
            (body.position.x as int, body.position.y as int) == push_out(
                s0.px,
                s0.py,
                nx as int,
                ny as int,
                pts.take(i as int),
            ),
            -COORD_LIMIT - i * PEN_LIMIT <= body.position.x <= COORD_LIMIT + i * PEN_LIMIT,
            -COORD_LIMIT - i * PEN_LIMIT <= body.position.y <= COORD_LIMIT + i * PEN_LIMIT,
            -COORD_LIMIT <= s0.px <= COORD_LIMIT,
            -COORD_LIMIT <= s0.py <= COORD_LIMIT,
        decreases pts.len() - i,
    {
        let pen = manifold.points[i].penetration;
        proof {
            assert(pts.take(i as int + 1).last() == pts[i as int]);
            assert(pts.take(i as int + 1).drop_last() =~= pts.take(i as int));
        }
        if pen > 0 {
            proof {
                assert(-(PEN_LIMIT as int) * (SCALE as int) <= (nx as int) * (pen as int) <= (
                PEN_LIMIT as int) * (SCALE as int) && -(PEN_LIMIT as int) * (SCALE as int) <= (
                ny as int) * (pen as int) <= (PEN_LIMIT as int) * (SCALE as int))
                    by (nonlinear_arith)
                    requires
                        -SCALE <= nx <= SCALE,
                        -SCALE <= ny <= SCALE,
                        0 < pen <= PEN_LIMIT,
                        SCALE == 1_000_000,
                        PEN_LIMIT == 1_000_000_000_000,
                ;
                lemma_div_trunc_within((nx as int) * (pen as int), SCALE as int, PEN_LIMIT as int);
                lemma_div_trunc_within((ny as int) * (pen as int), SCALE as int, PEN_LIMIT as int);
            }
            let dx = mul_div_trunc(nx, pen, SCALE);
            let dy = mul_div_trunc(ny, pen, SCALE);
            body.position.x = body.position.x + dx;
            body.position.y = body.position.y + dy;
        }
        i = i + 1;
    }
    proof {
        assert(pts.take(pts.len() as int) =~= pts);
    }
    // Steps 4 to 6: classify the slope and correct the velocity.
    let pen_deep = manifold.deepest_penetration();
    let ghost nsx = nx as int;
    let ghost nsy = ny as int;
    if pen_deep > 0 {
        if check_climbable(nx, ny) {
            // Climbable slope: snap the vertical velocity to the slope
            // tangent, never lowering an already higher intent.
            let neg_vx = -body.velocity.x;
            proof {
                assert(abs((neg_vx as int) * (nx as int)) <= COORD_LIMIT as int * (nsy))
                    by (nonlinear_arith)
                    requires
                        nsy > 0,
                        abs(nx as int) <= nsy,
                        -COORD_LIMIT <= neg_vx <= COORD_LIMIT,
                        nsx == nx as int,
                ;
                lemma_div_up_within((neg_vx as int) * (nx as int), nsy, COORD_LIMIT as int);
                lemma_mul_unary_negation(v0.x as int, nx as int);
            }
            let target = mul_div_up(neg_vx, nx, ny);
            if target > body.velocity.y {
                body.velocity.y = target;
            }
        } else {
            // Wall: reject the velocity along the normal, unless the body
            // is already moving away from the surface.
            let d = wide_dot(body.velocity.x, body.velocity.y, nx, ny);
            if d <= 0 {
                proof {
                    lemma_wide_dot_bound(v0.x as int, v0.y as int, nsx, nsy);
                    lemma_div_trunc_within(
                        dot(v0.x as int, v0.y as int, nsx, nsy),
                        SCALE as int,
                        2 * COORD_LIMIT as int,
                    );
                }
                let ds = narrow_to_i64(div_wide_trunc(d, SCALE));
                proof {
                    assert(abs((ds as int) * nsx) <= 2 * COORD_LIMIT as int * (SCALE as int)
                        && abs((ds as int) * nsy) <= 2 * COORD_LIMIT as int * (SCALE as int))
                        by (nonlinear_arith)
                        requires
                            abs(ds as int) <= 2 * COORD_LIMIT as int,
                            abs(nsx) <= SCALE as int,
                            abs(nsy) <= SCALE as int,
                    ;
                    lemma_div_trunc_within((ds as int) * nsx, SCALE as int, 2 * COORD_LIMIT as int);
                    lemma_div_trunc_within((ds as int) * nsy, SCALE as int, 2 * COORD_LIMIT as int);
                }
                let tx = mul_div_trunc(ds, nx, SCALE);
                let ty = mul_div_trunc(ds, ny, SCALE);
                body.velocity.x = body.velocity.x - tx;
                body.velocity.y = body.velocity.y - ty;
            }
        }
    } else {
        // Speculative contact: cancel the part of the velocity that would
        // close the remaining gap within this step.
        let d = wide_dot(body.velocity.x, body.velocity.y, nx, ny);
        proof {
            lemma_wide_dot_bound(v0.x as int, v0.y as int, nsx, nsy);
            lemma_div_trunc_within(
                dot(v0.x as int, v0.y as int, nsx, nsy),
                SCALE as int,
                2 * COORD_LIMIT as int,
            );
        }
        let ns = narrow_to_i64(div_wide_trunc(d, SCALE));
        if ns < 0 {
            proof {
                assert(abs((pen_deep as int) * (dt.den as int)) <= 1_000_000_000_000_000_000)
                    by (nonlinear_arith)
                    requires
                        -PEN_LIMIT <= pen_deep <= 0,
                        0 < dt.den <= 1_000_000,
                        PEN_LIMIT == 1_000_000_000_000,
                ;
                lemma_div_trunc_facts((pen_deep as int) * (dt.den as int), dt.num as int);
            }
            let gap_rate = mul_div_trunc(pen_deep, dt.den, dt.num);
            let magnitude = ns - gap_rate;
            proof {
                assert(abs((magnitude as int) * nsx) <= 1_003_000_000_000_000_000 * (
                SCALE as int) && abs((magnitude as int) * nsy) <= 1_003_000_000_000_000_000 * (
                SCALE as int)) by (nonlinear_arith)
                    requires
                        abs(magnitude as int) <= 1_003_000_000_000_000_000,
                        abs(nsx) <= SCALE as int,
                        abs(nsy) <= SCALE as int,
                ;
                lemma_div_trunc_within(
                    (magnitude as int) * nsx,
                    SCALE as int,
                    1_003_000_000_000_000_000,
                );
                lemma_div_trunc_within(
                    (magnitude as int) * nsy,
                    SCALE as int,
                    1_003_000_000_000_000_000,
                );
            }
            let ix = mul_div_trunc(magnitude, nx, SCALE);
            let iy = mul_div_trunc(magnitude, ny, SCALE);
            if check_climbable(nx, ny) {
                // Only the downward part may be removed: the slope must
                // not block upward traversal.
                let iy_down = if iy < 0 {
                    iy
                } else {
                    0
                };
                body.velocity.y = body.velocity.y - iy_down;
            } else {
                // The impulse may not drag the body up the wall.
                let iy_up = if iy > 0 {
                    iy
                } else {
                    0
                };
                body.velocity.x = body.velocity.x - ix;
                body.velocity.y = body.velocity.y - iy_up;
            }
        }
    }
}

/// The dot product of a guarded state with a unit-bounded normal stays
/// within `2 * COORD_LIMIT * SCALE`.
proof fn lemma_wide_dot_bound(vx: int, vy: int, nx: int, ny: int)
    requires
        -COORD_LIMIT <= vx <= COORD_LIMIT,
        -COORD_LIMIT <= vy <= COORD_LIMIT,
        -SCALE <= nx <= SCALE,
        -SCALE <= ny <= SCALE,
    ensures
        abs(dot(vx, vy, nx, ny)) <= 2 * COORD_LIMIT as int * (SCALE as int),
{
    assert(abs(vx * nx) <= COORD_LIMIT as int * (SCALE as int) && abs(vy * ny)
        <= COORD_LIMIT as int * (SCALE as int)) by (nonlinear_arith)
        requires
            -COORD_LIMIT <= vx <= COORD_LIMIT,
            -COORD_LIMIT <= vy <= COORD_LIMIT,
            -SCALE <= nx <= SCALE,
            -SCALE <= ny <= SCALE,
    ;
}

/// Resolve every contact manifold of this step against the character
/// body, in order, as [`resolve_all_spec`] states.
pub fn kinematic_controller_collisions(
    body: &mut CharacterBody,
    character_id: u64,
    manifolds: &Vec<ContactManifold>,
    registry: &ColliderRegistry,
    dt: &TimeStep,
)
    requires
        dt.wf(),
    ensures
        state_of(*final(body)) == resolve_all_spec(
            state_of(*old(body)),
            manifolds@,
            character_id,
            registry.entries@,
            *dt,
        ),
        final(body).grounded == old(body).grounded,
{
    let ghost s0 = state_of(*body);
    let ghost g0 = body.grounded;
    let mut i: usize = 0;
    while i < manifolds.len()
        invariant
            i <= manifolds@.len(),
            dt.wf(),
            state_of(*body) == resolve_all_spec(
                s0,
                manifolds@.take(i as int),
                character_id,
                registry.entries@,
                *dt,
            ),
            body.grounded == g0,
        decreases manifolds@.len() - i,
    {
        resolve_manifold(body, &manifolds[i], character_id, registry, dt);
        proof {
            assert(manifolds@.take(i as int + 1).drop_last() =~= manifolds@.take(i as int));
            assert(manifolds@.take(i as int + 1).last() == manifolds@[i as int]);
        }
        i = i + 1;
    }
    proof {
        assert(manifolds@.take(manifolds@.len() as int) =~= manifolds@);
    }
}

} // verus!
