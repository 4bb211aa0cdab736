//! Physics integration: velocity becomes displacement once per frame.
//!
//! The velocity vector's three components are independent speeds along the
//! entity's local x, y and z axes. Each local axis is rotated into world
//! space by the entity's orientation, scaled by its speed, and the three
//! world-space displacements are summed into the position — which is exactly
//! the matrix-vector product of the orientation's columns with the velocity.
//! The position saturates at the world coordinate range.

use vstd::prelude::*;
use vstd::pervasive::VecAdditionalExecFns;

use crate::components::{Physics, Transform};
use crate::math::{clamp_val, mat_vec, mat_vec_x, mat_vec_y, mat_vec_z, Vector3, COORD_BOUND};
use crate::model::WorldModel;
use crate::world::World;

verus! {

/// One physics tick of a single entity: the orientation-rotated velocity is
/// added to the position, saturating at [`COORD_BOUND`]. Scale and
/// orientation are untouched.
pub open spec fn spec_physics_update(t: Transform, p: Physics) -> Transform {
    Transform {
        position: Vector3 {
            x: clamp_val(
                t.position.x + mat_vec_x(t.orientation, p.velocity),
                COORD_BOUND as int,
            ) as i64,
            y: clamp_val(
                t.position.y + mat_vec_y(t.orientation, p.velocity),
                COORD_BOUND as int,
            ) as i64,
            z: clamp_val(
                t.position.z + mat_vec_z(t.orientation, p.velocity),
                COORD_BOUND as int,
            ) as i64,
        },
        ..t
    }
}

/// The physics system: every entity holding both a transform and a physics
/// component moves by one tick; everything else is untouched.
pub open spec fn spec_physics_system(m: WorldModel) -> WorldModel {
    WorldModel {
        transforms: Seq::new(
            m.transforms.len(),
            |i: int|
                match (m.transforms[i], m.physics[i]) {
                    (Some(t), Some(p)) => Some(spec_physics_update(t, p)),
                    _ => m.transforms[i],
                },
        ),
        ..m
    }
}

/// Integrates velocity into position for every entity with both components.
pub struct PhysicsSystem;

impl PhysicsSystem {
    pub fn run(&self, w: &mut World)
        requires
            old(w).wf(),
        ensures
            final(w).wf(),
            final(w).model() == spec_physics_system(old(w).model()),
    {
        let n = w.transforms.len();
        let mut i: usize = 0;
        while i < n
            invariant
                old(w).wf(),
                n == old(w).model().n(),
                i <= n,
                w.model() == (WorldModel { transforms: w.model().transforms, ..old(w).model() }),
                w.transforms@.len() == n,
                forall|j: int| i <= j < n ==> w.transforms@[j] == old(w).transforms@[j],
                forall|j: int|
                    0 <= j < i ==> w.transforms@[j] == spec_physics_system(
                        old(w).model(),
                    ).transforms[j],
            decreases n - i,
        {
            if w.transforms[i].is_some() && w.physics[i].is_some() {
                let t = w.transforms[i].unwrap();
                let p = w.physics[i].unwrap();
                let d = mat_vec(&t.orientation, &p.velocity);
                let position = t.position.add_clamped(&d, COORD_BOUND);
                w.transforms.set(i, Some(Transform { position, ..t }));
            }
            i = i + 1;
        }
        proof {
            let target = spec_physics_system(old(w).model());
            assert(w.model().transforms =~= target.transforms);
            assert(w.model() =~= target);
        }
    }
}

} // verus!
