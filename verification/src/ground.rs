//! Ground detection from downward shape-cast hits.
//!
//! The external narrow phase casts a slightly shrunk copy of the
//! character's collision shape a short distance downward and reports the
//! colliders it hit. The body is grounded exactly when at least one hit
//! is classified as ground; sensors and unknown colliders never ground
//! the body.

use crate::body::CharacterBody;
use crate::collider::{lookup_class, ColliderClass, ColliderEntry, ColliderRegistry};
use crate::math::SCALE;
use vstd::prelude::*;

verus! {

/// Configuration of the downward shape cast used for ground detection.
#[derive(Clone, Copy, Debug, PartialEq, Eq, Structural)]
pub struct GroundCaster {
    /// Scale applied to the character's collision shape, in fixed point;
    /// slightly below one unit so the cast cannot hit the shape itself.
    pub shape_scale: i64,
    /// How far down the cast reaches, in fixed point.
    pub max_distance: i64,
    /// How many hits the caster keeps at most.
    pub max_hits: u32,
}

impl GroundCaster {
    /// The stock caster: the shape shrunk by one percent, cast one world
    /// unit downward, keeping at most five hits.
    pub fn new() -> (c: GroundCaster)
        ensures
            c.shape_scale * 100 == 99 * SCALE,
            c.max_distance == SCALE,
            c.max_hits == 5,
    {
        GroundCaster { shape_scale: 990_000, max_distance: SCALE, max_hits: 5 }
    }
}

/// Whether some hit in the list is classified as ground.
pub open spec fn ground_hit_exists(hits: Seq<u64>, entries: Seq<ColliderEntry>) -> bool {
    exists|i: int|
        0 <= i < hits.len() && #[trigger] lookup_class(entries, hits[i]) == Some(
            ColliderClass::Ground,
        )
}

/// Recompute the body's grounded flag from this step's cast hits: grounded
/// exactly when at least one hit is classified as ground. Tolerates zero
/// hits (not grounded) and any number of hits; position and velocity are
/// untouched.
pub fn update_grounded(body: &mut CharacterBody, hits: &Vec<u64>, registry: &ColliderRegistry)
    ensures
        final(body).grounded == ground_hit_exists(hits@, registry.entries@),
        final(body).position == old(body).position,
        final(body).velocity == old(body).velocity,
{
    let mut grounded = false;
    let mut i: usize = 0;
    while i < hits.len()
        invariant
            i <= hits@.len(),
            grounded == exists|j: int|
                0 <= j < i && #[trigger] lookup_class(registry.entries@, hits@[j]) == Some(
                    ColliderClass::Ground,
                ),
        decreases hits@.len() - i,
    {
        let class = registry.lookup(hits[i]);
        match class {
            Some(ColliderClass::Ground) => {
                grounded = true;
                proof {
                    assert(lookup_class(registry.entries@, hits@[i as int]) == Some(
                        ColliderClass::Ground,
                    ));
                }
            },
            _ => {
            },
        }
        i = i + 1;
    }
    body.grounded = grounded;
}

} // verus!
