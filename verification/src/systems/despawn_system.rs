//! Despawning at the world boundary.
//!
//! Every entity marked with the despawn component, holding a transform and a
//! resolved shape, is tested against the fixed world boundary volume with the
//! same inclusive overlap test the collision detector uses; the boundary acts
//! as a stationary, unscaled, unrotated reference box. An entity with no
//! overlap at all is scheduled for deletion; one whose shape is still
//! unresolved is skipped. Deletions are buffered for the maintenance point,
//! and deleting an id that is already gone is simply ignored there.

use vstd::prelude::*;

use crate::components::Transform;
use crate::consts::spec_world_bounding_box;
use crate::data::aabb_overlap;
use crate::math::{Matrix3, Vector3};
use crate::model::WorldModel;
use crate::systems::collision_detector_3::{bb_at, transform_at, CollisionDetector3};
use crate::world::World;

verus! {

/// The boundary box's own transform: at the origin, unit scale, unrotated.
pub open spec fn spec_world_transform() -> Transform {
    Transform {
        position: Vector3 { x: 0, y: 0, z: 0 },
        scale: Vector3 { x: 1, y: 1, z: 1 },
        orientation: Matrix3::spec_identity(),
    }
}

/// Entity `i` leaves the world this frame: it is marked for despawning, has a
/// transform and a resolved shape, and its world box has no overlap with the
/// boundary volume.
pub open spec fn despawned(m: WorldModel, i: int) -> bool {
    &&& 0 <= i < m.n()
    &&& m.transforms[i] is Some
    &&& m.despawns[i] is Some
    &&& match m.shapes[i] {
        Some(sv) => sv is Init,
        None => false,
    }
    &&& !aabb_overlap(
        spec_world_bounding_box(),
        spec_world_transform(),
        bb_at(m, i),
        transform_at(m, i),
    )
}

/// The ids scheduled by the despawn scan over entities `0 <= i < j`, ascending.
pub open spec fn despawn_kills_upto(m: WorldModel, j: int) -> Seq<usize>
    decreases j,
{
    if j <= 0 {
        Seq::empty()
    } else {
        despawn_kills_upto(m, j - 1) + if despawned(m, j - 1) {
            seq![(j - 1) as usize]
        } else {
            Seq::empty()
        }
    }
}

/// The despawn system only extends the deletion buffer.
pub open spec fn spec_despawn_system(m: WorldModel) -> WorldModel {
    WorldModel { pending_deletes: m.pending_deletes + despawn_kills_upto(m, m.n()), ..m }
}

/// Schedules every marked entity that left the world boundary for deletion.
pub struct DespawnSystem;

impl DespawnSystem {
    pub fn run(&self, w: &mut World)
        requires
            old(w).wf(),
        ensures
            final(w).wf(),
            final(w).model() == spec_despawn_system(old(w).model()),
    {
        let ghost m = old(w).model();
        let world_bounding_box = crate::consts::world_bounding_box();
        let world_transform = Transform {
            position: Vector3::zero(),
            scale: Vector3 { x: 1, y: 1, z: 1 },
            orientation: Matrix3::identity(),
        };
        let n = w.alive.len();
        let mut to_kill: Vec<usize> = Vec::new();
        let mut i: usize = 0;
        while i < n
            invariant
                old(w).wf(),
                w == old(w),
                m == old(w).model(),
                n == m.n(),
                i <= n,
                world_bounding_box == spec_world_bounding_box(),
                world_transform == spec_world_transform(),
                to_kill@ == despawn_kills_upto(m, i as int),
            decreases n - i,
        {
            if w.transforms[i].is_some() && w.despawns[i].is_some() {
                let t = w.transforms[i].unwrap();
                match &w.shapes[i] {
                    Some(shape) => match shape {
                        crate::components::Shape::Init { bounding_box, .. } => {
                            proof {
                                assert(m.shapes[i as int] matches Some(c) ==> c.wf());
                                assert(m.transforms[i as int] matches Some(c) ==> c.wf());
                            }
                            if !CollisionDetector3::square_overlaps(
                                &world_bounding_box,
                                &world_transform,
                                bounding_box,
                                &t,
                            ) {
                                to_kill.push(i);
                            }
                        },
                        _ => {},
                    },
                    None => {},
                }
            }
            proof {
                if despawned(m, i as int) {
                    assert(to_kill@ =~= despawn_kills_upto(m, i + 1));
                } else {
                    assert(to_kill@ =~= despawn_kills_upto(m, i + 1));
                }
            }
            i = i + 1;
        }
        proof {
            assert(m.pending_deletes + to_kill@.take(0) =~= m.pending_deletes);
            assert(w.model() =~= (WorldModel {
                pending_deletes: m.pending_deletes + to_kill@.take(0),
                ..m
            }));
        }
        let mut idx: usize = 0;
        let num_kills = to_kill.len();
        while idx < num_kills
            invariant
                old(w).wf(),
                w.wf(),
                m == old(w).model(),
                idx <= num_kills,
                num_kills == to_kill@.len(),
                to_kill@ == despawn_kills_upto(m, m.n()),
                w.model() == (WorldModel {
                    pending_deletes: m.pending_deletes + to_kill@.take(idx as int),
                    ..m
                }),
            decreases num_kills - idx,
        {
            let id = to_kill[idx];
            w.pending_deletes.push(id);
            proof {
                assert(m.pending_deletes + to_kill@.take(idx + 1) =~= (m.pending_deletes
                    + to_kill@.take(idx as int)).push(to_kill@[idx as int]));
            }
            idx = idx + 1;
        }
        proof {
            assert(to_kill@.take(num_kills as int) =~= to_kill@);
            assert(m.pending_deletes + to_kill@ =~= w.model().pending_deletes);
            assert(w.model() =~= spec_despawn_system(m));
        }
    }
}

} // verus!
