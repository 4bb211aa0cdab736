//! The library's laws: properties that hold of the systems on all inputs,
//! stated over the same specifications the systems' contracts use.

use vstd::prelude::*;

use crate::components::{Physics, Transform};
use crate::data::{aabb_overlap, intervals_overlap, x_max, x_min, y_max, y_min, z_max, z_min, AABB};
use crate::math::Vector3;
use crate::model::WorldModel;
use crate::systems::collision_detector_3::{
    colliding, lemma_pairs_canonical, lemma_pairs_membership, spec_collision_system,
};
use crate::systems::damage_system::{spec_damage_direction, DamageOutcome};
use crate::systems::physics_system::{spec_physics_system, spec_physics_update};
use crate::world::spec_maintain;

verus! {

/// The box overlap test is symmetric: which of the two entities the detector
/// visits first cannot change whether a pair is detected.
pub proof fn lemma_overlap_symmetric(b1: AABB, t1: Transform, b2: AABB, t2: Transform)
    ensures
        aabb_overlap(b1, t1, b2, t2) == aabb_overlap(b2, t2, b1, t1),
{
}

/// The collision set is canonical: a pair is present exactly when both sides
/// are collidable and their boxes overlap, each pair appears with the smaller
/// id first, so the set never holds both `(a, b)` and `(b, a)` and never
/// holds `(a, a)`, and no pair appears twice.
pub proof fn lemma_collision_set_canonical(m: WorldModel)
    requires
        m.n() <= usize::MAX,
    ensures
        forall|p: (usize, usize)| #[trigger]
            spec_collision_system(m).collisions.contains(p) <==> (p.0 < p.1 && (p.1 as int) < m.n()
                && colliding(m, p.0 as int, p.1 as int)),
        forall|a: usize, b: usize|
            !(spec_collision_system(m).collisions.contains((a, b))
                && spec_collision_system(m).collisions.contains((b, a))),
        forall|a: usize| !spec_collision_system(m).collisions.contains((a, a)),
        forall|k: int, l: int|
            0 <= k < spec_collision_system(m).collisions.len() && 0 <= l < spec_collision_system(
                m,
            ).collisions.len() && k != l ==> spec_collision_system(m).collisions[k]
                != spec_collision_system(m).collisions[l],
{
    lemma_pairs_membership(m, m.n());
    lemma_pairs_canonical(m, m.n());
}

/// No self-damage: an entity whose damage component names itself as dealer
/// never acts as an attacker, so its own damage never reduces anyone's health
/// — in particular not its own, whichever side of a pair it stands on.
pub proof fn lemma_no_self_damage(
    damages: Seq<Option<crate::components::Damage>>,
    att: usize,
    vic: usize,
    st: DamageOutcome,
)
    requires
        att < damages.len(),
        damages[att as int] matches Some(d) && d.damage_dealer == att,
    ensures
        spec_damage_direction(damages, att, vic, st) == st,
{
}

/// An entity with zero velocity does not move in one physics tick.
pub proof fn lemma_physics_zero_velocity(t: Transform, p: Physics)
    requires
        t.wf(),
        p.velocity == Vector3::spec_zero(),
    ensures
        spec_physics_update(t, p) == t,
{
}

/// The physics system preserves the world invariant: every new position is
/// clamped into the coordinate range and nothing else changes.
pub proof fn lemma_physics_preserves_wf(m: WorldModel)
    requires
        m.wf(),
    ensures
        spec_physics_system(m).wf(),
{
    let after = spec_physics_system(m);
    assert forall|i: int|
        0 <= i < after.n() implies (#[trigger] after.transforms[i] matches Some(c) ==> c.wf()) by {
        assert(m.transforms[i] matches Some(c) ==> c.wf());
        assert(m.physics[i] matches Some(c) ==> c.wf());
    }
}

/// The world after `k` physics ticks.
pub open spec fn iter_physics(m: WorldModel, k: nat) -> WorldModel
    decreases k,
{
    if k == 0 {
        m
    } else {
        spec_physics_system(iter_physics(m, (k - 1) as nat))
    }
}

/// Physics idempotence under zero velocity: an entity whose velocity is
/// `(0, 0, 0)` has an unchanged transform after any number of physics ticks.
pub proof fn lemma_physics_zero_velocity_forever(m: WorldModel, i: int, k: nat)
    requires
        m.wf(),
        0 <= i < m.n(),
        m.physics[i] matches Some(p) && p.velocity == Vector3::spec_zero(),
    ensures
        iter_physics(m, k).wf(),
        iter_physics(m, k).transforms[i] == m.transforms[i],
        iter_physics(m, k).n() == m.n(),
        iter_physics(m, k).physics == m.physics,
    decreases k,
{
    if k != 0 {
        lemma_physics_zero_velocity_forever(m, i, (k - 1) as nat);
        let prev = iter_physics(m, (k - 1) as nat);
        lemma_physics_preserves_wf(prev);
        if m.transforms[i] is Some {
            let t = prev.transforms[i]->Some_0;
            let p = prev.physics[i]->Some_0;
            assert(prev.transforms[i] matches Some(c) ==> c.wf());
            lemma_physics_zero_velocity(t, p);
        }
    }
}

/// Two world-space intervals that exactly touch (`max1 == min2`) overlap:
/// the bound is inclusive.
pub proof fn lemma_intervals_touching(min1: int, max1: int, min2: int, max2: int)
    requires
        min1 <= max1,
        min2 <= max2,
        max1 == min2,
    ensures
        intervals_overlap(min1, max1, min2, max2),
{
}

/// Moving past touching by any positive amount on one axis separates the
/// intervals.
pub proof fn lemma_intervals_separated(min1: int, max1: int, min2: int, max2: int, eps: int)
    requires
        eps > 0,
        min2 == max1 + eps,
    ensures
        !intervals_overlap(min1, max1, min2, max2),
{
}

/// Two world-space boxes that exactly touch along one axis — the first box's
/// upper x end equals the second's lower x end — and overlap on the other two
/// axes are reported as overlapping: the detector's bound is inclusive.
pub proof fn lemma_boxes_touching_overlap(b1: AABB, t1: Transform, b2: AABB, t2: Transform)
    requires
        x_max(b1, t1) == x_min(b2, t2),
        x_min(b1, t1) <= x_max(b1, t1),
        x_min(b2, t2) <= x_max(b2, t2),
        intervals_overlap(y_min(b1, t1), y_max(b1, t1), y_min(b2, t2), y_max(b2, t2)),
        intervals_overlap(z_min(b1, t1), z_max(b1, t1), z_min(b2, t2), z_max(b2, t2)),
    ensures
        aabb_overlap(b1, t1, b2, t2),
{
}

/// Moving the second box past touching by any positive distance along x makes
/// the pair non-overlapping, however the other axes stand.
pub proof fn lemma_boxes_separated(b1: AABB, t1: Transform, b2: AABB, t2: Transform, eps: int)
    requires
        eps > 0,
        x_min(b2, t2) == x_max(b1, t1) + eps,
    ensures
        !aabb_overlap(b1, t1, b2, t2),
{
}

/// Deferred deletion is atomic: an entity scheduled for deletion keeps every
/// component until the maintenance point (see
/// [`crate::world::World::delete_entity`], which changes nothing but the
/// buffer), and after maintenance it is dead and owns no component at all, so
/// no storage scan can yield it again.
pub proof fn lemma_maintain_removes(m: WorldModel, id: usize)
    requires
        m.lens_ok(),
        m.pending_deletes.contains(id),
        (id as int) < m.n(),
    ensures
        !spec_maintain(m).alive[id as int],
        spec_maintain(m).transforms[id as int] is None,
        spec_maintain(m).physics[id as int] is None,
        spec_maintain(m).colliders[id as int] is None,
        spec_maintain(m).shapes[id as int] is None,
        spec_maintain(m).guns[id as int] is None,
        spec_maintain(m).thrusters[id as int] is None,
        spec_maintain(m).damages[id as int] is None,
        spec_maintain(m).healths[id as int] is None,
        spec_maintain(m).cameras[id as int] is None,
        spec_maintain(m).follow_cameras[id as int] is None,
        spec_maintain(m).pulsates[id as int] is None,
        spec_maintain(m).despawns[id as int] is None,
        spec_maintain(m).transformables[id as int] is None,
        !crate::systems::collision_detector_3::collidable(spec_maintain(m), id as int),
{
}

} // verus!
