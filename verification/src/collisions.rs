//! The collision set resource.

use vstd::prelude::*;

verus! {

/// The set of unordered entity-id pairs whose world-space boxes currently
/// overlap, recomputed from scratch every frame by the collision detector.
/// Each pair is stored once, in canonical order (smaller id first).
#[derive(Clone, Debug, PartialEq)]
pub struct Collisions(pub Vec<(usize, usize)>);

impl Default for Collisions {
    /// An empty collision set.
    fn default() -> (r: Collisions)
        ensures
            r.0@ == Seq::<(usize, usize)>::empty(),
    {
        Collisions(Vec::new())
    }
}

} // verus!
