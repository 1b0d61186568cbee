//! Behavioural laws of the physics core, proved against the resolver's
//! model and the ground detector's specification.

use crate::body::TimeStep;
use crate::collider::{lookup_class, ColliderClass, ColliderEntry};
use crate::contact::{deepest, lemma_deepest_is_max, ContactManifold, ContactPoint};
use crate::ground::ground_hit_exists;
use crate::math::{
    div_up, lemma_div_exact_multiple, lemma_div_trunc_facts, lemma_div_up_facts, SCALE,
};
use crate::resolver::{
    climbable, dot, manifold_applies, oriented_normal, push_out, resolve_all_spec,
    resolve_manifold_spec, resolve_velocity, state_in_guard, KinematicState,
};
use vstd::arithmetic::mul::lemma_mul_inequality;
use vstd::math::max;
use vstd::prelude::*;

verus! {

/// Resting equilibrium: a penetrating contact with flat ground (oriented
/// normal pointing straight up) brings any descending vertical velocity
/// to exactly zero in a single resolution and leaves the horizontal
/// velocity unchanged. Together with the gravity clamp this is why a
/// dropped body comes to vertical rest within a bounded number of steps.
pub proof fn lemma_resting_equilibrium(
    s: KinematicState,
    m: ContactManifold,
    cid: u64,
    entries: Seq<ColliderEntry>,
    dt: TimeStep,
)
    requires
        m.wf(),
        state_in_guard(s),
        manifold_applies(m, cid, entries),
        oriented_normal(m, cid) == (0int, SCALE as int),
        deepest(m.points@) > 0,
        s.vy <= 0,
    ensures
        resolve_manifold_spec(s, m, cid, entries, dt).vy == 0,
        resolve_manifold_spec(s, m, cid, entries, dt).vx == s.vx,
{
    lemma_div_up_facts(-(s.vx * 0), SCALE as int);
}

/// Slope snap: resolving a penetrating contact with a climbable slope
/// keeps the horizontal velocity and raises the vertical velocity to at
/// least `-s * tan(angle)`, where `s = vx * sgn(nx)` is the horizontal
/// speed along the slope's outward direction and `tan(angle) = |nx| / ny`.
/// Cleared of the division (`ny > 0`), that reads `vy' * ny >= -(vx * nx)`.
/// The vertical velocity is never lowered by the snap.
pub proof fn lemma_slope_snap(
    vx: int,
    vy: int,
    nx: int,
    ny: int,
    pen: int,
    dt: TimeStep,
)
    requires
        climbable(nx, ny),
        pen > 0,
    ensures
        resolve_velocity(vx, vy, nx, ny, pen, dt).0 == vx,
        resolve_velocity(vx, vy, nx, ny, pen, dt).1 * ny >= -(vx * nx),
        resolve_velocity(vx, vy, nx, ny, pen, dt).1 >= vy,
{
    let target = div_up(-(vx * nx), ny);
    lemma_div_up_facts(-(vx * nx), ny);
    lemma_mul_inequality(target, max(vy, target), ny);
}

/// Wall slide on a vertical wall: rejecting a non-separating velocity
/// from a unit horizontal normal zeroes the velocity component along the
/// normal exactly and leaves the tangential (vertical) component as it
/// was.
pub proof fn lemma_wall_slide_vertical(
    vx: int,
    vy: int,
    nx: int,
    pen: int,
    dt: TimeStep,
)
    requires
        nx == SCALE || nx == -SCALE,
        pen > 0,
        vx * nx <= 0,
    ensures
        resolve_velocity(vx, vy, nx, 0, pen, dt).0 == 0,
        resolve_velocity(vx, vy, nx, 0, pen, dt).1 == vy,
        dot(
            resolve_velocity(vx, vy, nx, 0, pen, dt).0,
            resolve_velocity(vx, vy, nx, 0, pen, dt).1,
            nx,
            0,
        ) == 0,
{
    lemma_div_exact_multiple(vx, SCALE as int);
    lemma_div_exact_multiple(-vx, SCALE as int);
}

/// A state that neither penetrates a manifold nor closes on it: no point
/// overlaps, and the velocity along the oriented normal is not inward.
pub open spec fn separated_from(s: KinematicState, m: ContactManifold, cid: u64) -> bool {
    &&& deepest(m.points@) <= 0
    &&& dot(s.vx, s.vy, oriented_normal(m, cid).0, oriented_normal(m, cid).1) >= 0
}

/// No positive penetration anywhere means the push-out moves nothing.
proof fn lemma_push_out_no_pen(px: int, py: int, nx: int, ny: int, points: Seq<ContactPoint>)
    requires
        forall|i: int| 0 <= i < points.len() ==> (#[trigger] points[i]).penetration <= 0,
    ensures
        push_out(px, py, nx, ny, points) == (px, py),
    decreases points.len(),
{
    if points.len() > 0 {
        assert forall|i: int|
            0 <= i < points.drop_last().len() implies (#[trigger] points.drop_last()[i]).penetration
            <= 0 by {
            assert(points.drop_last()[i] == points[i]);
        }
        lemma_push_out_no_pen(px, py, nx, ny, points.drop_last());
        assert(points[points.len() - 1] == points.last());
    }
}

/// Separating contact no-op: a speculative contact the body does not
/// close on leaves position and velocity exactly unchanged.
pub proof fn lemma_separating_contact_no_op(
    s: KinematicState,
    m: ContactManifold,
    cid: u64,
    entries: Seq<ColliderEntry>,
    dt: TimeStep,
)
    requires
        separated_from(s, m, cid),
    ensures
        resolve_manifold_spec(s, m, cid, entries, dt) == s,
{
    if m.wf() && state_in_guard(s) && manifold_applies(m, cid, entries) {
        let n = oriented_normal(m, cid);
        lemma_deepest_is_max(m.points@);
        lemma_push_out_no_pen(s.px, s.py, n.0, n.1, m.points@);
        lemma_div_trunc_facts(dot(s.vx, s.vy, n.0, n.1), SCALE as int);
    }
}

/// Idempotence: on a state with no remaining penetrating or closing
/// contact, the whole resolver pass is a no-op, so running it a second
/// time after a pass that settled every contact changes nothing.
pub proof fn lemma_resolver_idempotent(
    s: KinematicState,
    manifolds: Seq<ContactManifold>,
    cid: u64,
    entries: Seq<ColliderEntry>,
    dt: TimeStep,
)
    requires
        forall|i: int| 0 <= i < manifolds.len() ==> separated_from(s, #[trigger] manifolds[i], cid),
    ensures
        resolve_all_spec(s, manifolds, cid, entries, dt) == s,
    decreases manifolds.len(),
{
    if manifolds.len() > 0 {
        assert forall|i: int|
            0 <= i < manifolds.drop_last().len() implies separated_from(
            s,
            #[trigger] manifolds.drop_last()[i],
            cid,
        ) by {
            assert(manifolds.drop_last()[i] == manifolds[i]);
        }
        lemma_resolver_idempotent(s, manifolds.drop_last(), cid, entries, dt);
        assert(manifolds[manifolds.len() - 1] == manifolds.last());
        lemma_separating_contact_no_op(s, manifolds.last(), cid, entries, dt);
    }
}

/// Ground classification: a downward cast whose hits are all sensors
/// never grounds the body.
pub proof fn lemma_sensor_hits_not_ground(hits: Seq<u64>, entries: Seq<ColliderEntry>)
    requires
        forall|i: int|
            0 <= i < hits.len() ==> #[trigger] lookup_class(entries, hits[i]) == Some(
                ColliderClass::Sensor,
            ),
    ensures
        !ground_hit_exists(hits, entries),
{
}

} // verus!

