//! The fixed-pipeline scheduler.
//!
//! One dispatch runs every system once, in a deterministic order that
//! respects the single declared dependency: the damage system runs strictly
//! after the collision detector has repopulated the collision set. Despawn
//! and damage only schedule deletions, which commute; the deletions
//! themselves wait for [`crate::world::World::maintain`], which the frame
//! loop calls after each dispatch. The whole frame is the composition of the
//! systems' specifications, in dispatch order.

use vstd::prelude::*;

use crate::model::WorldModel;
use crate::systems::camera_system::{spec_camera_system, CameraSystem};
use crate::systems::collision_detector_3::{spec_collision_system, CollisionDetector3};
use crate::systems::damage_system::{spec_damage_system, DamageSystem};
use crate::systems::despawn_system::{spec_despawn_system, DespawnSystem};
use crate::systems::physics_system::{spec_physics_system, PhysicsSystem};
use crate::systems::pulsate_system::{spec_pulsate_system, PulsateSystem};
use crate::systems::shoot_system::{spec_shoot_system, ShootSystem};
use crate::systems::thruster_system::{spec_thruster_system, ThrusterSystem};
use crate::systems::transformations_system::{
    spec_transformations_system, TransformationsSystem,
};
use crate::world::World;

verus! {

/// One whole frame of simulation: the systems' specifications composed in
/// dispatch order — collision detection first, damage after it, despawn and
/// camera last.
pub open spec fn spec_frame(m: WorldModel) -> WorldModel {
    spec_camera_system(
        spec_despawn_system(
            spec_damage_system(
                spec_thruster_system(
                    spec_shoot_system(
                        spec_pulsate_system(
                            spec_transformations_system(
                                spec_physics_system(spec_collision_system(m)),
                            ),
                        ),
                    ),
                ),
            ),
        ),
    )
}

/// Runs the systems of one frame in their declared order.
pub struct DoemDispatcher;

impl DoemDispatcher {
    /// The fixed pipeline; rendering and input polling stay with the
    /// presentation collaborator around the frame loop.
    pub fn new() -> (d: DoemDispatcher) {
        DoemDispatcher
    }

    /// Dispatches every system once. The damage system consumes the collision
    /// set the detector computed earlier in this same call.
    pub fn dispatch(&self, w: &mut World)
        requires
            old(w).wf(),
        ensures
            final(w).wf(),
            final(w).model() == spec_frame(old(w).model()),
    {
        CollisionDetector3.run(w);
        PhysicsSystem.run(w);
        TransformationsSystem.run(w);
        PulsateSystem.run(w);
        ShootSystem.run(w);
        ThrusterSystem.run(w);
        DamageSystem.run(w);
        DespawnSystem.run(w);
        CameraSystem.run(w);
    }
}

} // verus!
