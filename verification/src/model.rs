//! The mathematical model of the world.
//!
//! [`WorldModel`] is the ghost image of [`crate::world::World`]: one sequence
//! per component storage, indexed by entity id, together with the collision
//! set, the event queue and the buffered deletions. Every system's contract
//! is a function from model to model, and the frame dispatcher's contract is
//! their composition.

use vstd::prelude::*;

use crate::components::{
    Camera, Collider, Damage, Despawn, FollowCamera, Gun, Health, Physics, Pulsate, ShapeView,
    Thruster, Transform, Transformable,
};
use crate::events::InputEvent;

verus! {

/// Ghost image of the whole simulation state.
#[verifier::ext_equal]
pub ghost struct WorldModel {
    /// Which entity ids are live; the length of every storage equals this one's.
    pub alive: Seq<bool>,
    pub transforms: Seq<Option<Transform>>,
    pub physics: Seq<Option<Physics>>,
    pub colliders: Seq<Option<Collider>>,
    pub shapes: Seq<Option<ShapeView>>,
    pub guns: Seq<Option<Gun>>,
    pub thrusters: Seq<Option<Thruster>>,
    pub damages: Seq<Option<Damage>>,
    pub healths: Seq<Option<Health>>,
    pub cameras: Seq<Option<Camera>>,
    pub follow_cameras: Seq<Option<FollowCamera>>,
    pub pulsates: Seq<Option<Pulsate>>,
    pub despawns: Seq<Option<Despawn>>,
    pub transformables: Seq<Option<Transformable>>,
    /// Unordered entity pairs currently overlapping, canonically ordered.
    pub collisions: Seq<(usize, usize)>,
    /// This frame's input events.
    pub events: Seq<InputEvent>,
    /// Deletions buffered until the maintenance point.
    pub pending_deletes: Seq<usize>,
}

impl WorldModel {
    /// Number of entity slots ever created.
    pub open spec fn n(self) -> int {
        self.alive.len() as int
    }

    /// Every storage is as long as the alive table.
    pub open spec fn lens_ok(self) -> bool {
        &&& self.transforms.len() == self.n()
        &&& self.physics.len() == self.n()
        &&& self.colliders.len() == self.n()
        &&& self.shapes.len() == self.n()
        &&& self.guns.len() == self.n()
        &&& self.thrusters.len() == self.n()
        &&& self.damages.len() == self.n()
        &&& self.healths.len() == self.n()
        &&& self.cameras.len() == self.n()
        &&& self.follow_cameras.len() == self.n()
        &&& self.pulsates.len() == self.n()
        &&& self.despawns.len() == self.n()
        &&& self.transformables.len() == self.n()
    }

    /// Every stored component is within its bounds.
    pub open spec fn comps_wf(self) -> bool {
        &&& forall|i: int|
            0 <= i < self.n() ==> (#[trigger] self.transforms[i] matches Some(c) ==> c.wf())
        &&& forall|i: int|
            0 <= i < self.n() ==> (#[trigger] self.physics[i] matches Some(c) ==> c.wf())
        &&& forall|i: int|
            0 <= i < self.n() ==> (#[trigger] self.colliders[i] matches Some(c) ==> c.wf())
        &&& forall|i: int|
            0 <= i < self.n() ==> (#[trigger] self.shapes[i] matches Some(c) ==> c.wf())
        &&& forall|i: int|
            0 <= i < self.n() ==> (#[trigger] self.guns[i] matches Some(c) ==> c.wf())
        &&& forall|i: int|
            0 <= i < self.n() ==> (#[trigger] self.thrusters[i] matches Some(c) ==> c.wf())
        &&& forall|i: int|
            0 <= i < self.n() ==> (#[trigger] self.damages[i] matches Some(c) ==> c.wf())
        &&& forall|i: int|
            0 <= i < self.n() ==> (#[trigger] self.healths[i] matches Some(c) ==> c.wf())
        &&& forall|i: int|
            0 <= i < self.n() ==> (#[trigger] self.cameras[i] matches Some(c) ==> c.wf())
        &&& forall|i: int|
            0 <= i < self.n() ==> (#[trigger] self.follow_cameras[i] matches Some(c) ==> c.wf())
        &&& forall|i: int|
            0 <= i < self.n() ==> (#[trigger] self.pulsates[i] matches Some(c) ==> c.wf())
    }

    /// The collision set holds only canonically ordered pairs, without
    /// duplicates: never `(a, a)`, and never both `(a, b)` and `(b, a)`.
    pub open spec fn collisions_wf(self) -> bool {
        &&& forall|k: int|
            0 <= k < self.collisions.len() ==> (#[trigger] self.collisions[k]).0
                < self.collisions[k].1
        &&& forall|k: int, l: int|
            0 <= k < self.collisions.len() && 0 <= l < self.collisions.len() && k != l
                ==> self.collisions[k] != self.collisions[l]
    }

    /// The world invariant: consistent lengths, bounded components, canonical
    /// collision set.
    pub open spec fn wf(self) -> bool {
        &&& self.lens_ok()
        &&& self.comps_wf()
        &&& self.collisions_wf()
    }
}

} // verus!
