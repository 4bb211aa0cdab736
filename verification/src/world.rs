//! The entity store: one storage per component type, a live-entity table,
//! and the deferred-deletion buffer applied at the maintenance point.
//!
//! Entity ids are indices into the storages and are never reused: deleting an
//! entity clears its slot at [`World::maintain`] but leaves the id retired.
//! Deletions requested during a frame are buffered in `pending_deletes`, so a
//! system running later in the same frame still sees the entity's components;
//! they vanish atomically when the frame's maintenance point runs.

use vstd::prelude::*;
use vstd::pervasive::VecAdditionalExecFns;

use crate::collisions::Collisions;
use crate::components::{
    Camera, Collider, Damage, Despawn, FollowCamera, Gun, Health, Physics, Pulsate, Shape,
    ShapeView, Thruster, Transform, Transformable,
};
use crate::events::DoemEvents;
use crate::model::WorldModel;

verus! {

/// The simulation state: per-component storages indexed by entity id, the
/// collision set and event queue resources, and the deferred-deletion buffer.
pub struct World {
    pub alive: Vec<bool>,
    pub transforms: Vec<Option<Transform>>,
    pub physics: Vec<Option<Physics>>,
    pub colliders: Vec<Option<Collider>>,
    pub shapes: Vec<Option<Shape>>,
    pub guns: Vec<Option<Gun>>,
    pub thrusters: Vec<Option<Thruster>>,
    pub damages: Vec<Option<Damage>>,
    pub healths: Vec<Option<Health>>,
    pub cameras: Vec<Option<Camera>>,
    pub follow_cameras: Vec<Option<FollowCamera>>,
    pub pulsates: Vec<Option<Pulsate>>,
    pub despawns: Vec<Option<Despawn>>,
    pub transformables: Vec<Option<Transformable>>,
    pub collisions: Collisions,
    pub events: DoemEvents,
    pub pending_deletes: Vec<usize>,
}

/// Ghost image of a shape storage.
pub open spec fn shapes_view(s: Seq<Option<Shape>>) -> Seq<Option<ShapeView>> {
    Seq::new(
        s.len(),
        |i: int|
            match s[i] {
                Some(sh) => Some(sh.view()),
                None => None,
            },
    )
}

impl World {
    /// The mathematical image of the world.
    pub open spec fn model(self) -> WorldModel {
        WorldModel {
            alive: self.alive@,
            transforms: self.transforms@,
            physics: self.physics@,
            colliders: self.colliders@,
            shapes: shapes_view(self.shapes@),
            guns: self.guns@,
            thrusters: self.thrusters@,
            damages: self.damages@,
            healths: self.healths@,
            cameras: self.cameras@,
            follow_cameras: self.follow_cameras@,
            pulsates: self.pulsates@,
            despawns: self.despawns@,
            transformables: self.transformables@,
            collisions: self.collisions.0@,
            events: self.events.0@,
            pending_deletes: self.pending_deletes@,
        }
    }

    /// The world invariant; every public operation preserves it.
    pub open spec fn wf(self) -> bool {
        self.model().wf()
    }

    /// Number of entity slots ever created (live or retired).
    pub fn num_entities(&self) -> (r: usize)
        ensures
            r == self.model().n(),
    {
        self.alive.len()
    }
}

/// The world a fresh game starts from.
pub open spec fn spec_empty_world() -> WorldModel {
    WorldModel {
        alive: Seq::empty(),
        transforms: Seq::empty(),
        physics: Seq::empty(),
        colliders: Seq::empty(),
        shapes: Seq::empty(),
        guns: Seq::empty(),
        thrusters: Seq::empty(),
        damages: Seq::empty(),
        healths: Seq::empty(),
        cameras: Seq::empty(),
        follow_cameras: Seq::empty(),
        pulsates: Seq::empty(),
        despawns: Seq::empty(),
        transformables: Seq::empty(),
        collisions: Seq::empty(),
        events: Seq::empty(),
        pending_deletes: Seq::empty(),
    }
}

/// A freshly created entity slot: live, with no components yet.
pub open spec fn spec_create(m: WorldModel) -> WorldModel {
    WorldModel {
        alive: m.alive.push(true),
        transforms: m.transforms.push(None),
        physics: m.physics.push(None),
        colliders: m.colliders.push(None),
        shapes: m.shapes.push(None),
        guns: m.guns.push(None),
        thrusters: m.thrusters.push(None),
        damages: m.damages.push(None),
        healths: m.healths.push(None),
        cameras: m.cameras.push(None),
        follow_cameras: m.follow_cameras.push(None),
        pulsates: m.pulsates.push(None),
        despawns: m.despawns.push(None),
        transformables: m.transformables.push(None),
        ..m
    }
}

/// A storage after the buffered deletions are applied: every deleted slot is
/// cleared, every other slot untouched.
pub open spec fn clear_deleted<T>(s: Seq<Option<T>>, dels: Seq<usize>) -> Seq<Option<T>> {
    Seq::new(
        s.len(),
        |i: int|
            if dels.contains(i as usize) {
                None
            } else {
                s[i]
            },
    )
}

/// The maintenance point: all buffered deletions take effect at once and the
/// buffer empties. Ids in the buffer that never existed are ignored.
pub open spec fn spec_maintain(m: WorldModel) -> WorldModel {
    WorldModel {
        alive: Seq::new(
            m.alive.len(),
            |i: int| m.alive[i] && !m.pending_deletes.contains(i as usize),
        ),
        transforms: clear_deleted(m.transforms, m.pending_deletes),
        physics: clear_deleted(m.physics, m.pending_deletes),
        colliders: clear_deleted(m.colliders, m.pending_deletes),
        shapes: clear_deleted(m.shapes, m.pending_deletes),
        guns: clear_deleted(m.guns, m.pending_deletes),
        thrusters: clear_deleted(m.thrusters, m.pending_deletes),
        damages: clear_deleted(m.damages, m.pending_deletes),
        healths: clear_deleted(m.healths, m.pending_deletes),
        cameras: clear_deleted(m.cameras, m.pending_deletes),
        follow_cameras: clear_deleted(m.follow_cameras, m.pending_deletes),
        pulsates: clear_deleted(m.pulsates, m.pending_deletes),
        despawns: clear_deleted(m.despawns, m.pending_deletes),
        transformables: clear_deleted(m.transformables, m.pending_deletes),
        pending_deletes: Seq::empty(),
        ..m
    }
}

/// Membership in a sequence extended by one element.
pub proof fn lemma_contains_push<A>(s: Seq<A>, e: A)
    ensures
        forall|x: A| #[trigger] s.push(e).contains(x) <==> (s.contains(x) || x == e),
{
    assert forall|x: A| #[trigger] s.push(e).contains(x) <==> (s.contains(x) || x == e) by {
        if s.contains(x) {
            let j = choose|j: int| 0 <= j < s.len() && s[j] == x;
            assert(s.push(e)[j] == x);
        }
        if x == e {
            assert(s.push(e)[s.len() as int] == x);
        }
        if s.push(e).contains(x) {
            let j = choose|j: int| 0 <= j < s.push(e).len() && s.push(e)[j] == x;
            if j < s.len() {
                assert(s[j] == x);
            }
        }
    }
}

/// Constructor for the game world with every storage registered and empty.
pub struct DoemWorld;

impl DoemWorld {
    /// A fresh, empty world.
    pub fn new() -> (w: World)
        ensures
            w.wf(),
            w.model() == spec_empty_world(),
    {
        let w = World {
            alive: Vec::new(),
            transforms: Vec::new(),
            physics: Vec::new(),
            colliders: Vec::new(),
            shapes: Vec::new(),
            guns: Vec::new(),
            thrusters: Vec::new(),
            damages: Vec::new(),
            healths: Vec::new(),
            cameras: Vec::new(),
            follow_cameras: Vec::new(),
            pulsates: Vec::new(),
            despawns: Vec::new(),
            transformables: Vec::new(),
            collisions: Collisions(Vec::new()),
            events: DoemEvents(Vec::new()),
            pending_deletes: Vec::new(),
        };
        proof {
            assert(w.model() =~= spec_empty_world());
        }
        w
    }
}

impl World {
    /// Creates a fresh entity id, live immediately, with no components.
    pub fn create_entity(&mut self) -> (id: usize)
        requires
            old(self).wf(),
        ensures
            final(self).wf(),
            final(self).model() == spec_create(old(self).model()),
            id == old(self).model().n(),
    {
        let id = self.alive.len();
        self.alive.push(true);
        self.transforms.push(None);
        self.physics.push(None);
        self.colliders.push(None);
        self.shapes.push(None);
        self.guns.push(None);
        self.thrusters.push(None);
        self.damages.push(None);
        self.healths.push(None);
        self.cameras.push(None);
        self.follow_cameras.push(None);
        self.pulsates.push(None);
        self.despawns.push(None);
        self.transformables.push(None);
        proof {
            assert(shapes_view(self.shapes@) =~= shapes_view(old(self).shapes@).push(None));
            assert(self.model() =~= spec_create(old(self).model()));
        }
        id
    }

    /// Schedules `id` for deletion at the next maintenance point. The entity
    /// and all its components stay visible until then.
    pub fn delete_entity(&mut self, id: usize)
        requires
            old(self).wf(),
        ensures
            final(self).wf(),
            final(self).model() == (WorldModel {
                pending_deletes: old(self).model().pending_deletes.push(id),
                ..old(self).model()
            }),
    {
        self.pending_deletes.push(id);
        proof {
            assert(self.model() =~= (WorldModel {
                pending_deletes: old(self).model().pending_deletes.push(id),
                ..old(self).model()
            }));
        }
    }

    /// Applies every buffered deletion atomically and empties the buffer.
    /// Deleting an id that no longer exists is ignored.
    pub fn maintain(&mut self)
        requires
            old(self).wf(),
        ensures
            final(self).wf(),
            final(self).model() == spec_maintain(old(self).model()),
    {
        let n = self.alive.len();
        let ghost dels = old(self).pending_deletes@;
        let num_dels = self.pending_deletes.len();
        let mut k: usize = 0;
        while k < num_dels
            invariant
                old(self).wf(),
                num_dels == dels.len(),
                k <= num_dels,
                n == old(self).model().n(),
                self.pending_deletes@ == dels,
                self.collisions.0@ == old(self).collisions.0@,
                self.events.0@ == old(self).events.0@,
                self.alive@.len() == n,
                self.transforms@.len() == n,
                self.physics@.len() == n,
                self.colliders@.len() == n,
                self.shapes@.len() == n,
                self.guns@.len() == n,
                self.thrusters@.len() == n,
                self.damages@.len() == n,
                self.healths@.len() == n,
                self.cameras@.len() == n,
                self.follow_cameras@.len() == n,
                self.pulsates@.len() == n,
                self.despawns@.len() == n,
                self.transformables@.len() == n,
                forall|i: int|
                    0 <= i < n ==> #[trigger] self.alive@[i] == (old(self).alive@[i]
                        && !dels.take(k as int).contains(i as usize)),
                forall|i: int|
                    0 <= i < n ==> #[trigger] self.transforms@[i] == (
                    if dels.take(k as int).contains(i as usize) {
                        None::<Transform>
                    } else {
                        old(self).transforms@[i]
                    }),
                forall|i: int|
                    0 <= i < n ==> #[trigger] self.physics@[i] == (
                    if dels.take(k as int).contains(i as usize) {
                        None::<Physics>
                    } else {
                        old(self).physics@[i]
                    }),
                forall|i: int|
                    0 <= i < n ==> #[trigger] self.colliders@[i] == (
                    if dels.take(k as int).contains(i as usize) {
                        None::<Collider>
                    } else {
                        old(self).colliders@[i]
                    }),
                forall|i: int|
                    0 <= i < n ==> #[trigger] self.shapes@[i] == (
                    if dels.take(k as int).contains(i as usize) {
                        None::<Shape>
                    } else {
                        old(self).shapes@[i]
                    }),
                forall|i: int|
                    0 <= i < n ==> #[trigger] self.guns@[i] == (
                    if dels.take(k as int).contains(i as usize) {
                        None::<Gun>
                    } else {
                        old(self).guns@[i]
                    }),
                forall|i: int|
                    0 <= i < n ==> #[trigger] self.thrusters@[i] == (
                    if dels.take(k as int).contains(i as usize) {
                        None::<Thruster>
                    } else {
                        old(self).thrusters@[i]
                    }),
                forall|i: int|
                    0 <= i < n ==> #[trigger] self.damages@[i] == (
                    if dels.take(k as int).contains(i as usize) {
                        None::<Damage>
                    } else {
                        old(self).damages@[i]
                    }),
                forall|i: int|
                    0 <= i < n ==> #[trigger] self.healths@[i] == (
                    if dels.take(k as int).contains(i as usize) {
                        None::<Health>
                    } else {
                        old(self).healths@[i]
                    }),
                forall|i: int|
                    0 <= i < n ==> #[trigger] self.cameras@[i] == (
                    if dels.take(k as int).contains(i as usize) {
                        None::<Camera>
                    } else {
                        old(self).cameras@[i]
                    }),
                forall|i: int|
                    0 <= i < n ==> #[trigger] self.follow_cameras@[i] == (
                    if dels.take(k as int).contains(i as usize) {
                        None::<FollowCamera>
                    } else {
                        old(self).follow_cameras@[i]
                    }),
                forall|i: int|
                    0 <= i < n ==> #[trigger] self.pulsates@[i] == (
                    if dels.take(k as int).contains(i as usize) {
                        None::<Pulsate>
                    } else {
                        old(self).pulsates@[i]
                    }),
                forall|i: int|
                    0 <= i < n ==> #[trigger] self.despawns@[i] == (
                    if dels.take(k as int).contains(i as usize) {
                        None::<Despawn>
                    } else {
                        old(self).despawns@[i]
                    }),
                forall|i: int|
                    0 <= i < n ==> #[trigger] self.transformables@[i] == (
                    if dels.take(k as int).contains(i as usize) {
                        None::<Transformable>
                    } else {
                        old(self).transformables@[i]
                    }),
            decreases num_dels - k,
        {
            let id = self.pending_deletes[k];
            proof {
                assert(dels.take(k + 1) =~= dels.take(k as int).push(dels[k as int]));
                lemma_contains_push(dels.take(k as int), dels[k as int]);
            }
            if id < n {
                self.alive.set(id, false);
                self.transforms.set(id, None);
                self.physics.set(id, None);
                self.colliders.set(id, None);
                self.shapes.set(id, None);
                self.guns.set(id, None);
                self.thrusters.set(id, None);
                self.damages.set(id, None);
                self.healths.set(id, None);
                self.cameras.set(id, None);
                self.follow_cameras.set(id, None);
                self.pulsates.set(id, None);
                self.despawns.set(id, None);
                self.transformables.set(id, None);
            }
            k = k + 1;
        }
        self.pending_deletes = Vec::new();
        proof {
            assert(dels.take(num_dels as int) =~= dels);
            let target = spec_maintain(old(self).model());
            assert(self.model().alive =~= target.alive);
            assert(self.model().transforms =~= target.transforms);
            assert(self.model().physics =~= target.physics);
            assert(self.model().colliders =~= target.colliders);
            assert(self.model().shapes =~= target.shapes);
            assert(self.model().guns =~= target.guns);
            assert(self.model().thrusters =~= target.thrusters);
            assert(self.model().damages =~= target.damages);
            assert(self.model().healths =~= target.healths);
            assert(self.model().cameras =~= target.cameras);
            assert(self.model().follow_cameras =~= target.follow_cameras);
            assert(self.model().pulsates =~= target.pulsates);
            assert(self.model().despawns =~= target.despawns);
            assert(self.model().transformables =~= target.transformables);
            assert(self.model() =~= target);
        }
    }
}

} // verus!
