//! Collider classification: ground, sensor, or dynamic.
//!
//! The level loader assigns every collider a class and records it here.
//! Ground detection and collision response look colliders up by
//! identifier; an identifier with no record is a stale reference (the
//! collider despawned mid-step) and the contact is skipped.

use vstd::prelude::*;

verus! {

/// The class tag a collider carries.
///
/// *Ground* is solid: it contributes to the grounded flag and receives
/// collision response. *Sensor* is non-solid: ignored by ground detection
/// and by position correction. *Dynamic* is a movable rigid body:
/// response against it is deliberately skipped.
#[derive(Clone, Copy, Debug, PartialEq, Eq, Structural)]
pub enum ColliderClass {
    Ground,
    Sensor,
    Dynamic,
}

/// One registry row: a collider identifier with its class.
#[derive(Clone, Copy, Debug, PartialEq, Eq, Structural)]
pub struct ColliderEntry {
    pub id: u64,
    pub class: ColliderClass,
}

/// The classification registry filled by the level loader.
pub struct ColliderRegistry {
    pub entries: Vec<ColliderEntry>,
}

/// The class a sequence of records assigns to `id`; the latest record for
/// an identifier wins, and an unrecorded identifier has no class.
pub open spec fn lookup_class(entries: Seq<ColliderEntry>, id: u64) -> Option<ColliderClass>
    decreases entries.len(),
{
    if entries.len() == 0 {
        None
    } else if entries.last().id == id {
        Some(entries.last().class)
    } else {
        lookup_class(entries.drop_last(), id)
    }
}

impl ColliderRegistry {
    /// An empty registry: no collider has a class yet.
    pub fn new() -> (r: ColliderRegistry)
        ensures
            r.entries@.len() == 0,
            forall|i: u64| lookup_class(r.entries@, i) == Option::<ColliderClass>::None,
    {
        ColliderRegistry { entries: Vec::new() }
    }

    /// Record the class of a collider; a later record overrides an
    /// earlier one for the same identifier.
    pub fn register(&mut self, id: u64, class: ColliderClass)
        ensures
            final(self).entries@ == old(self).entries@.push(ColliderEntry { id, class }),
            forall|i: u64| lookup_class(final(self).entries@, i) == (if i == id {
                Some(class)
            } else {
                lookup_class(old(self).entries@, i)
            }),
    {
        self.entries.push(ColliderEntry { id, class });
        proof {
            assert(self.entries@.drop_last() =~= old(self).entries@);
        }
    }

    /// The class recorded for a collider identifier, if any.
    pub fn lookup(&self, id: u64) -> (r: Option<ColliderClass>)
        ensures
            r == lookup_class(self.entries@, id),
    {
        let mut i: usize = self.entries.len();
        proof {
            assert(self.entries@.take(i as int) =~= self.entries@);
        }
        while i > 0
            invariant
                i <= self.entries@.len(),
                lookup_class(self.entries@, id) == lookup_class(
                    self.entries@.take(i as int),
                    id,
                ),
            decreases i,
        {
            i = i - 1;
            let e = self.entries[i];
            proof {
                assert(self.entries@.take(i as int + 1).last() == self.entries@[i as int]);
                assert(self.entries@.take(i as int + 1).drop_last() =~= self.entries@.take(
                    i as int,
                ));
            }
            if e.id == id {
                return Some(e.class);
            }
        }
        proof {
            assert(self.entries@.take(0) =~= Seq::<ColliderEntry>::empty());
        }
        None
    }
}

} // verus!
