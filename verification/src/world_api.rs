//! Component insertion and read access on the world.
//!
//! Insertion is immediate — spawning logic relies on that — while deletion
//! is deferred; reading never changes anything. Every mutator keeps the
//! world invariant.

use vstd::prelude::*;
use vstd::pervasive::VecAdditionalExecFns;

use crate::components::{
    Camera, Collider, Damage, Despawn, FollowCamera, Gun, Health, Physics, Pulsate, Shape,
    ShapeView, Thruster, Transform, Transformable,
};
use crate::data::AABB;
use crate::events::InputEvent;
use crate::math::VAL_BOUND;
use crate::model::WorldModel;
use crate::world::{shapes_view, World};

verus! {

impl World {
    /// Gives entity `id` a transform, replacing any it had.
    pub fn insert_transform(&mut self, id: usize, c: Transform)
        requires
            old(self).wf(),
            id < old(self).model().n(),
            c.wf(),
        ensures
            final(self).wf(),
            final(self).model() == (WorldModel {
                transforms: old(self).model().transforms.update(id as int, Some(c)),
                ..old(self).model()
            }),
    {
        self.transforms.set(id, Some(c));
        proof {
            assert(self.model() =~= (WorldModel {
                transforms: old(self).model().transforms.update(id as int, Some(c)),
                ..old(self).model()
            }));
        }
    }

    /// Gives entity `id` a physics component, replacing any it had.
    pub fn insert_physics(&mut self, id: usize, c: Physics)
        requires
            old(self).wf(),
            id < old(self).model().n(),
            c.wf(),
        ensures
            final(self).wf(),
            final(self).model() == (WorldModel {
                physics: old(self).model().physics.update(id as int, Some(c)),
                ..old(self).model()
            }),
    {
        self.physics.set(id, Some(c));
        proof {
            assert(self.model() =~= (WorldModel {
                physics: old(self).model().physics.update(id as int, Some(c)),
                ..old(self).model()
            }));
        }
    }

    /// Gives entity `id` a collider, replacing any it had.
    pub fn insert_collider(&mut self, id: usize, c: Collider)
        requires
            old(self).wf(),
            id < old(self).model().n(),
            c.wf(),
        ensures
            final(self).wf(),
            final(self).model() == (WorldModel {
                colliders: old(self).model().colliders.update(id as int, Some(c)),
                ..old(self).model()
            }),
    {
        self.colliders.set(id, Some(c));
        proof {
            assert(self.model() =~= (WorldModel {
                colliders: old(self).model().colliders.update(id as int, Some(c)),
                ..old(self).model()
            }));
        }
    }

    /// Gives entity `id` a shape, replacing any it had.
    pub fn insert_shape(&mut self, id: usize, c: Shape)
        requires
            old(self).wf(),
            id < old(self).model().n(),
            c.view().wf(),
        ensures
            final(self).wf(),
            final(self).model() == (WorldModel {
                shapes: old(self).model().shapes.update(id as int, Some(c.view())),
                ..old(self).model()
            }),
    {
        let ghost target = old(self).model().shapes.update(id as int, Some(c.view()));
        self.shapes.set(id, Some(c));
        proof {
            assert(shapes_view(self.shapes@) =~= target);
            assert(self.model() =~= (WorldModel { shapes: target, ..old(self).model() }));
        }
    }

    /// Gives entity `id` a gun, replacing any it had.
    pub fn insert_gun(&mut self, id: usize, c: Gun)
        requires
            old(self).wf(),
            id < old(self).model().n(),
            c.wf(),
        ensures
            final(self).wf(),
            final(self).model() == (WorldModel {
                guns: old(self).model().guns.update(id as int, Some(c)),
                ..old(self).model()
            }),
    {
        self.guns.set(id, Some(c));
        proof {
            assert(self.model() =~= (WorldModel {
                guns: old(self).model().guns.update(id as int, Some(c)),
                ..old(self).model()
            }));
        }
    }

    /// Gives entity `id` a thruster, replacing any it had.
    pub fn insert_thruster(&mut self, id: usize, c: Thruster)
        requires
            old(self).wf(),
            id < old(self).model().n(),
            c.wf(),
        ensures
            final(self).wf(),
            final(self).model() == (WorldModel {
                thrusters: old(self).model().thrusters.update(id as int, Some(c)),
                ..old(self).model()
            }),
    {
        self.thrusters.set(id, Some(c));
        proof {
            assert(self.model() =~= (WorldModel {
                thrusters: old(self).model().thrusters.update(id as int, Some(c)),
                ..old(self).model()
            }));
        }
    }

    /// Gives entity `id` a damage component, replacing any it had.
    pub fn insert_damage(&mut self, id: usize, c: Damage)
        requires
            old(self).wf(),
            id < old(self).model().n(),
            c.wf(),
        ensures
            final(self).wf(),
            final(self).model() == (WorldModel {
                damages: old(self).model().damages.update(id as int, Some(c)),
                ..old(self).model()
            }),
    {
        self.damages.set(id, Some(c));
        proof {
            assert(self.model() =~= (WorldModel {
                damages: old(self).model().damages.update(id as int, Some(c)),
                ..old(self).model()
            }));
        }
    }

    /// Gives entity `id` a health component, replacing any it had.
    pub fn insert_health(&mut self, id: usize, c: Health)
        requires
            old(self).wf(),
            id < old(self).model().n(),
            c.wf(),
        ensures
            final(self).wf(),
            final(self).model() == (WorldModel {
                healths: old(self).model().healths.update(id as int, Some(c)),
                ..old(self).model()
            }),
    {
        self.healths.set(id, Some(c));
        proof {
            assert(self.model() =~= (WorldModel {
                healths: old(self).model().healths.update(id as int, Some(c)),
                ..old(self).model()
            }));
        }
    }

    /// Gives entity `id` a camera, replacing any it had.
    pub fn insert_camera(&mut self, id: usize, c: Camera)
        requires
            old(self).wf(),
            id < old(self).model().n(),
            c.wf(),
        ensures
            final(self).wf(),
            final(self).model() == (WorldModel {
                cameras: old(self).model().cameras.update(id as int, Some(c)),
                ..old(self).model()
            }),
    {
        self.cameras.set(id, Some(c));
        proof {
            assert(self.model() =~= (WorldModel {
                cameras: old(self).model().cameras.update(id as int, Some(c)),
                ..old(self).model()
            }));
        }
    }

    /// Gives entity `id` a follow camera, replacing any it had.
    pub fn insert_follow_camera(&mut self, id: usize, c: FollowCamera)
        requires
            old(self).wf(),
            id < old(self).model().n(),
            c.wf(),
        ensures
            final(self).wf(),
            final(self).model() == (WorldModel {
                follow_cameras: old(self).model().follow_cameras.update(id as int, Some(c)),
                ..old(self).model()
            }),
    {
        self.follow_cameras.set(id, Some(c));
        proof {
            assert(self.model() =~= (WorldModel {
                follow_cameras: old(self).model().follow_cameras.update(id as int, Some(c)),
                ..old(self).model()
            }));
        }
    }

    /// Gives entity `id` a pulsate component, replacing any it had.
    pub fn insert_pulsate(&mut self, id: usize, c: Pulsate)
        requires
            old(self).wf(),
            id < old(self).model().n(),
            c.wf(),
        ensures
            final(self).wf(),
            final(self).model() == (WorldModel {
                pulsates: old(self).model().pulsates.update(id as int, Some(c)),
                ..old(self).model()
            }),
    {
        self.pulsates.set(id, Some(c));
        proof {
            assert(self.model() =~= (WorldModel {
                pulsates: old(self).model().pulsates.update(id as int, Some(c)),
                ..old(self).model()
            }));
        }
    }

    /// Marks entity `id` for the boundary check of the despawn system.
    pub fn insert_despawn(&mut self, id: usize)
        requires
            old(self).wf(),
            id < old(self).model().n(),
        ensures
            final(self).wf(),
            final(self).model() == (WorldModel {
                despawns: old(self).model().despawns.update(id as int, Some(Despawn)),
                ..old(self).model()
            }),
    {
        self.despawns.set(id, Some(Despawn));
        proof {
            assert(self.model() =~= (WorldModel {
                despawns: old(self).model().despawns.update(id as int, Some(Despawn)),
                ..old(self).model()
            }));
        }
    }

    /// Marks entity `id` as accepting free-form transform editing.
    pub fn insert_transformable(&mut self, id: usize)
        requires
            old(self).wf(),
            id < old(self).model().n(),
        ensures
            final(self).wf(),
            final(self).model() == (WorldModel {
                transformables: old(self).model().transformables.update(
                    id as int,
                    Some(Transformable),
                ),
                ..old(self).model()
            }),
    {
        self.transformables.set(id, Some(Transformable));
        proof {
            assert(self.model() =~= (WorldModel {
                transformables: old(self).model().transformables.update(
                    id as int,
                    Some(Transformable),
                ),
                ..old(self).model()
            }));
        }
    }

    /// The external mesh collaborator resolves a shape: a `Unit` shape
    /// becomes `Init` with the loaded mesh handle and bounding box; a shape
    /// already resolved, or absent, is left exactly as it is, so the
    /// transition happens at most once.
    pub fn resolve_shape(
        &mut self,
        id: usize,
        tess_id: usize,
        bounding_box: AABB,
        bounding_box_tess_id: Option<usize>,
    )
        requires
            old(self).wf(),
            id < old(self).model().n(),
            bounding_box.in_bound(VAL_BOUND as int),
        ensures
            final(self).wf(),
            final(self).model() == (WorldModel {
                shapes: if old(self).model().shapes[id as int] matches Some(sv) && sv is Unit {
                    old(self).model().shapes.update(
                        id as int,
                        Some(ShapeView::Init { tess_id, bounding_box, bounding_box_tess_id }),
                    )
                } else {
                    old(self).model().shapes
                },
                ..old(self).model()
            }),
    {
        let resolve = match &self.shapes[id] {
            Some(shape) => match shape {
                Shape::Unit { .. } => true,
                _ => false,
            },
            None => false,
        };
        if resolve {
            self.shapes.set(
                id,
                Some(Shape::Init { tess_id, bounding_box, bounding_box_tess_id }),
            );
            proof {
                assert(shapes_view(self.shapes@) =~= old(self).model().shapes.update(
                    id as int,
                    Some(ShapeView::Init { tess_id, bounding_box, bounding_box_tess_id }),
                ));
            }
        }
        proof {
            assert(self.model() =~= (WorldModel {
                shapes: if old(self).model().shapes[id as int] matches Some(sv) && sv is Unit {
                    old(self).model().shapes.update(
                        id as int,
                        Some(ShapeView::Init { tess_id, bounding_box, bounding_box_tess_id }),
                    )
                } else {
                    old(self).model().shapes
                },
                ..old(self).model()
            }));
        }
    }

    /// Replaces the frame's event queue; the presentation collaborator fills
    /// it once per frame.
    pub fn set_events(&mut self, events: Vec<InputEvent>)
        requires
            old(self).wf(),
        ensures
            final(self).wf(),
            final(self).model() == (WorldModel {
                events: events@,
                ..old(self).model()
            }),
    {
        self.events.0 = events;
        proof {
            assert(self.model() =~= (WorldModel { events: self.events.0@, ..old(self).model() }));
        }
    }

    /// Whether entity `id` is live; ids at or past the slot count never are.
    pub fn is_alive(&self, id: usize) -> (r: bool)
        ensures
            r == ((id as int) < self.model().n() && self.model().alive[id as int]),
    {
        id < self.alive.len() && self.alive[id]
    }

    /// The transform of entity `id`, if it has one.
    pub fn transform_of(&self, id: usize) -> (r: Option<Transform>)
        ensures
            r == (if (id as int) < self.model().transforms.len() {
                self.model().transforms[id as int]
            } else {
                None
            }),
    {
        if id < self.transforms.len() {
            self.transforms[id]
        } else {
            None
        }
    }

    /// The physics component of entity `id`, if it has one.
    pub fn physics_of(&self, id: usize) -> (r: Option<Physics>)
        ensures
            r == (if (id as int) < self.model().physics.len() {
                self.model().physics[id as int]
            } else {
                None
            }),
    {
        if id < self.physics.len() {
            self.physics[id]
        } else {
            None
        }
    }

    /// The health of entity `id`, if it has one.
    pub fn health_of(&self, id: usize) -> (r: Option<Health>)
        ensures
            r == (if (id as int) < self.model().healths.len() {
                self.model().healths[id as int]
            } else {
                None
            }),
    {
        if id < self.healths.len() {
            self.healths[id]
        } else {
            None
        }
    }

    /// The damage component of entity `id`, if it has one.
    pub fn damage_of(&self, id: usize) -> (r: Option<Damage>)
        ensures
            r == (if (id as int) < self.model().damages.len() {
                self.model().damages[id as int]
            } else {
                None
            }),
    {
        if id < self.damages.len() {
            self.damages[id]
        } else {
            None
        }
    }

    /// The camera of entity `id`, if it has one.
    pub fn camera_of(&self, id: usize) -> (r: Option<Camera>)
        ensures
            r == (if (id as int) < self.model().cameras.len() {
                self.model().cameras[id as int]
            } else {
                None
            }),
    {
        if id < self.cameras.len() {
            self.cameras[id]
        } else {
            None
        }
    }

    /// The pulsate component of entity `id`, if it has one.
    pub fn pulsate_of(&self, id: usize) -> (r: Option<Pulsate>)
        ensures
            r == (if (id as int) < self.model().pulsates.len() {
                self.model().pulsates[id as int]
            } else {
                None
            }),
    {
        if id < self.pulsates.len() {
            self.pulsates[id]
        } else {
            None
        }
    }

    /// The shape of entity `id`; the renderer reads the mesh handle and
    /// bounding box out of resolved shapes.
    pub fn shape_of(&self, id: usize) -> (r: &Option<Shape>)
        requires
            (id as int) < self.model().shapes.len(),
        ensures
            (*r matches Some(s) ==> self.model().shapes[id as int] == Some(s.view())),
            (*r is None ==> self.model().shapes[id as int] is None),
    {
        &self.shapes[id]
    }

    /// Whether entity `id` carries the despawn marker.
    pub fn has_despawn(&self, id: usize) -> (r: bool)
        ensures
            r == ((id as int) < self.model().despawns.len() && self.model().despawns[id as int]
                is Some),
    {
        id < self.despawns.len() && self.despawns[id].is_some()
    }

    /// The collision set computed by the latest detector pass.
    pub fn collision_pairs(&self) -> (r: &Vec<(usize, usize)>)
        ensures
            r@ == self.model().collisions,
    {
        &self.collisions.0
    }

    /// The deletions buffered for the next maintenance point.
    pub fn scheduled_deletions(&self) -> (r: &Vec<usize>)
        ensures
            r@ == self.model().pending_deletes,
    {
        &self.pending_deletes
    }
}

} // verus!
