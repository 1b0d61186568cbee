//! Contact manifolds, as delivered by the external narrow phase.

use crate::math::{Vec2, SCALE};
use vstd::math::max;
use vstd::prelude::*;

verus! {

/// Penetration depths beyond this bound (one million world units) are
/// treated as degenerate geometry and skipped.
pub const PEN_LIMIT: i64 = 1_000_000_000_000;

/// The most contact points one manifold may carry; a 2D narrow phase
/// produces at most two, so anything past this bound is degenerate.
pub const MAX_CONTACT_POINTS: usize = 16;

/// One contact point: its penetration depth. Positive means the shapes
/// overlap by that much; negative means they are still separated and the
/// contact is *speculative* (predicted to close within the step).
#[derive(Clone, Copy, Debug, PartialEq, Eq, Structural)]
pub struct ContactPoint {
    pub penetration: i64,
}

/// A contact manifold for one colliding pair in one step: the two
/// collider identifiers, the shared contact normal (a unit vector in
/// fixed point, pointing from the second collider toward the first), and
/// the ordered list of contact points.
#[derive(Debug)]
pub struct ContactManifold {
    pub collider1: u64,
    pub collider2: u64,
    pub normal: Vec2,
    pub points: Vec<ContactPoint>,
}

/// The deepest (largest) penetration depth in a nonempty point list.
pub open spec fn deepest(points: Seq<ContactPoint>) -> int
    recommends
        points.len() > 0,
    decreases points.len(),
{
    if points.len() <= 1 {
        if points.len() == 1 {
            points[0].penetration as int
        } else {
            0
        }
    } else {
        max(deepest(points.drop_last()), points.last().penetration as int)
    }
}

/// Every point's penetration is at most the deepest one.
pub proof fn lemma_deepest_is_max(points: Seq<ContactPoint>)
    requires
        points.len() > 0,
    ensures
        forall|i: int|
            0 <= i < points.len() ==> (#[trigger] points[i]).penetration <= deepest(points),
    decreases points.len(),
{
    if points.len() > 1 {
        lemma_deepest_is_max(points.drop_last());
        assert forall|i: int|
            0 <= i < points.len() implies (#[trigger] points[i]).penetration <= deepest(
            points,
        ) by {
            if i < points.len() - 1 {
                assert(points.drop_last()[i] == points[i]);
            }
        }
    }
}

impl ContactManifold {
    /// A manifold the resolver can work with: a nonzero normal of at most
    /// unit magnitude per axis, and a nonempty, bounded list of points
    /// with bounded penetration depths. Anything else is degenerate
    /// geometry, skipped defensively.
    pub open spec fn wf(self) -> bool {
        &&& !(self.normal.x == 0 && self.normal.y == 0)
        &&& -SCALE <= self.normal.x <= SCALE
        &&& -SCALE <= self.normal.y <= SCALE
        &&& 1 <= self.points@.len() <= MAX_CONTACT_POINTS
        &&& forall|i: int|
            0 <= i < self.points@.len() ==> -PEN_LIMIT <= (#[trigger] self.points@[i]).penetration
                <= PEN_LIMIT
    }

    /// Run the well-formedness test of [`ContactManifold::wf`].
    pub fn check_wf(&self) -> (ok: bool)
        ensures
            ok == self.wf(),
    {
        if self.normal.x == 0 && self.normal.y == 0 {
            return false;
        }
        if self.normal.x < -SCALE || self.normal.x > SCALE {
            return false;
        }
        if self.normal.y < -SCALE || self.normal.y > SCALE {
            return false;
        }
        if self.points.len() < 1 || self.points.len() > MAX_CONTACT_POINTS {
            return false;
        }
        let mut i: usize = 0;
        while i < self.points.len()
            invariant
                i <= self.points@.len(),
                forall|j: int|
                    0 <= j < i ==> -PEN_LIMIT <= (#[trigger] self.points@[j]).penetration
                        <= PEN_LIMIT,
            decreases self.points@.len() - i,
        {
            let p = self.points[i].penetration;
            if p < -PEN_LIMIT || p > PEN_LIMIT {
                return false;
            }
            i = i + 1;
        }
        true
    }

    /// The deepest penetration across this manifold's points.
    pub fn deepest_penetration(&self) -> (d: i64)
        requires
            self.wf(),
        ensures
            d as int == deepest(self.points@),
            -PEN_LIMIT <= d <= PEN_LIMIT,
    {
        let mut d = self.points[0].penetration;
        let mut i: usize = 1;
        proof {
            assert(self.points@.take(1)[0] == self.points@[0]);
        }
        while i < self.points.len()
            invariant
                1 <= i <= self.points@.len(),
                self.wf(),
                d as int == deepest(self.points@.take(i as int)),
                -PEN_LIMIT <= d <= PEN_LIMIT,
            decreases self.points@.len() - i,
        {
            let p = self.points[i].penetration;
            proof {
                assert(self.points@.take(i as int + 1).last() == self.points@[i as int]);
                assert(self.points@.take(i as int + 1).drop_last() =~= self.points@.take(
                    i as int,
                ));
            }
            if p > d {
                d = p;
            }
            i = i + 1;
        }
        proof {
            assert(self.points@.take(self.points@.len() as int) =~= self.points@);
        }
        d
    }
}

} // verus!
