//! Shooting: trigger events spawn projectile entities.
//!
//! On every space-key press or repeat in the frame's event queue, each entity
//! holding a transform, a physics component and a gun spawns one bullet: a
//! fresh entity with an unresolved bullet shape, a zero-extent collider, the
//! shooter's position and orientation at the fixed bullet scale, the
//! shooter's velocity plus the gun's muzzle velocity, a damage component
//! crediting the shooter as dealer, and a despawn marker. Spawns are buffered
//! during the scan and created only after it completes, so no storage is
//! grown while it is being read; the new entities are live immediately.

use vstd::prelude::*;

use crate::components::{Collider, Damage, Despawn, Physics, Shape, ShapeView, Transform};
use crate::consts::{BULLET_OBJ_PATH, BULLET_SCALE};
use crate::events::{is_key_active, lemma_filter_push, Action, InputEvent, Key};
use crate::math::{spec_add_clamped, Vector3, VAL_BOUND};
use crate::model::WorldModel;
use crate::world::World;

verus! {

/// The event pulls the trigger: the space key was pressed or is held.
pub open spec fn is_shoot_event(e: InputEvent) -> bool {
    is_key_active(e, Key::Space)
}

/// How many bullets each shooter fires this frame.
pub open spec fn shot_count(events: Seq<InputEvent>) -> nat {
    events.filter(|e: InputEvent| is_shoot_event(e)).len()
}

/// The entity can shoot: it has a transform, a physics component and a gun.
pub open spec fn is_shooter(m: WorldModel, i: int) -> bool {
    &&& 0 <= i < m.n()
    &&& m.transforms[i] is Some
    &&& m.physics[i] is Some
    &&& m.guns[i] is Some
}

/// The components a bullet is born with, decided by its shooter alone.
#[derive(Clone, Copy, Debug, PartialEq, Eq, Structural)]
pub struct BulletComponents {
    pub transform: Transform,
    pub physics: Physics,
    pub collider: Collider,
    pub damage: Damage,
}

/// The bullet entity `shooter` spawns: shooter position and orientation at
/// the bullet scale, shooter velocity plus muzzle velocity (saturating), zero
/// collider extent, and the gun's damage credited to the shooter.
pub open spec fn bullet_of(m: WorldModel, shooter: int) -> BulletComponents {
    let t = m.transforms[shooter]->Some_0;
    let p = m.physics[shooter]->Some_0;
    let g = m.guns[shooter]->Some_0;
    BulletComponents {
        transform: Transform {
            position: t.position,
            scale: Vector3 { x: BULLET_SCALE, y: BULLET_SCALE, z: BULLET_SCALE },
            orientation: t.orientation,
        },
        physics: Physics { velocity: spec_add_clamped(p.velocity, g.velocity, VAL_BOUND as int) },
        collider: Collider { half_size: Vector3::spec_zero() },
        damage: Damage {
            damage: g.damage,
            despawn_entity_on_impact: g.despawn_bullet_on_impact,
            damage_dealer: shooter as usize,
        },
    }
}

/// The spawn buffer after scanning shooters `0 <= i < j`: one bullet per
/// trigger event per shooter, shooters in ascending order.
pub open spec fn bullets_upto(m: WorldModel, j: int) -> Seq<BulletComponents>
    decreases j,
{
    if j <= 0 {
        Seq::empty()
    } else {
        bullets_upto(m, j - 1) + if is_shooter(m, j - 1) {
            Seq::new(shot_count(m.events), |s: int| bullet_of(m, j - 1))
        } else {
            Seq::empty()
        }
    }
}

/// One bullet entity appended to the world: live, carrying exactly its four
/// components, an unresolved bullet shape and a despawn marker.
pub open spec fn spec_spawn_bullet(w: WorldModel, b: BulletComponents) -> WorldModel {
    WorldModel {
        alive: w.alive.push(true),
        transforms: w.transforms.push(Some(b.transform)),
        physics: w.physics.push(Some(b.physics)),
        colliders: w.colliders.push(Some(b.collider)),
        shapes: w.shapes.push(Some(ShapeView::Unit { obj_path: BULLET_OBJ_PATH@ })),
        guns: w.guns.push(None),
        thrusters: w.thrusters.push(None),
        damages: w.damages.push(Some(b.damage)),
        healths: w.healths.push(None),
        cameras: w.cameras.push(None),
        follow_cameras: w.follow_cameras.push(None),
        pulsates: w.pulsates.push(None),
        despawns: w.despawns.push(Some(Despawn)),
        transformables: w.transformables.push(None),
        ..w
    }
}

/// The whole buffer spawned, first bullet first.
pub open spec fn spec_spawn_all(w: WorldModel, bs: Seq<BulletComponents>) -> WorldModel
    decreases bs.len(),
{
    if bs.len() == 0 {
        w
    } else {
        spec_spawn_all(spec_spawn_bullet(w, bs[0]), bs.drop_first())
    }
}

/// Appending a bullet to the buffer spawns it last.
pub proof fn lemma_spawn_all_push(w: WorldModel, bs: Seq<BulletComponents>, b: BulletComponents)
    ensures
        spec_spawn_all(w, bs.push(b)) == spec_spawn_bullet(spec_spawn_all(w, bs), b),
    decreases bs.len(),
{
    reveal_with_fuel(spec_spawn_all, 2);
    if bs.len() == 0 {
        assert(bs.push(b).drop_first() =~= Seq::empty());
        assert(bs.push(b)[0] == b);
    } else {
        assert(bs.push(b).drop_first() =~= bs.drop_first().push(b));
        assert(bs.push(b)[0] == bs[0]);
        lemma_spawn_all_push(spec_spawn_bullet(w, bs[0]), bs.drop_first(), b);
    }
}

/// The shoot system: the buffered bullets of every shooter, spawned after the
/// scan; nothing already in the world changes.
pub open spec fn spec_shoot_system(m: WorldModel) -> WorldModel {
    spec_spawn_all(m, bullets_upto(m, m.n()))
}

/// Spawns one projectile per trigger event per armed entity.
pub struct ShootSystem;

impl ShootSystem {
    pub fn run(&self, w: &mut World)
        requires
            old(w).wf(),
        ensures
            final(w).wf(),
            final(w).model() == spec_shoot_system(old(w).model()),
    {
        let ghost m = old(w).model();
        // How many trigger events the frame holds.
        let num_events = w.events.0.len();
        let mut shots: usize = 0;
        let mut k: usize = 0;
        while k < num_events
            invariant
                w == old(w),
                m == old(w).model(),
                num_events == m.events.len(),
                k <= num_events,
                shots == shot_count(m.events.take(k as int)),
                shots <= k,
            decreases num_events - k,
        {
            let e = w.events.0[k];
            proof {
                assert(m.events.take(k + 1) =~= m.events.take(k as int).push(m.events[k as int]));
                lemma_filter_push(
                    m.events.take(k as int),
                    m.events[k as int],
                    |ev: InputEvent| is_shoot_event(ev),
                );
            }
            if e == InputEvent::Key(Key::Space, Action::Press) || e == InputEvent::Key(
                Key::Space,
                Action::Repeat,
            ) {
                shots = shots + 1;
            }
            k = k + 1;
        }
        proof {
            assert(m.events.take(num_events as int) =~= m.events);
        }
        // Scan the shooters, buffering one bullet per trigger event each.
        let n = w.alive.len();
        let mut buffer: Vec<BulletComponents> = Vec::new();
        let mut i: usize = 0;
        while i < n
            invariant
                old(w).wf(),
                w == old(w),
                m == old(w).model(),
                n == m.n(),
                i <= n,
                shots == shot_count(m.events),
                buffer@ == bullets_upto(m, i as int),
                forall|b: int|
                    0 <= b < buffer@.len() ==> (#[trigger] buffer@[b]).transform.wf()
                        && buffer@[b].physics.wf() && buffer@[b].collider.wf()
                        && buffer@[b].damage.wf(),
            decreases n - i,
        {
            if w.transforms[i].is_some() && w.physics[i].is_some() && w.guns[i].is_some() {
                let t = w.transforms[i].unwrap();
                let p = w.physics[i].unwrap();
                let g = w.guns[i].unwrap();
                let bullet = BulletComponents {
                    transform: Transform {
                        position: t.position,
                        scale: Vector3 { x: BULLET_SCALE, y: BULLET_SCALE, z: BULLET_SCALE },
                        orientation: t.orientation,
                    },
                    physics: Physics { velocity: p.velocity.add_clamped(&g.velocity, VAL_BOUND) },
                    collider: Collider { half_size: Vector3::zero() },
                    damage: Damage {
                        damage: g.damage,
                        despawn_entity_on_impact: g.despawn_bullet_on_impact,
                        damage_dealer: i,
                    },
                };
                proof {
                    assert(m.transforms[i as int] matches Some(c) ==> c.wf());
                    assert(m.physics[i as int] matches Some(c) ==> c.wf());
                    assert(m.guns[i as int] matches Some(c) ==> c.wf());
                    assert(bullet == bullet_of(m, i as int));
                    assert(bullet.transform.wf() && bullet.physics.wf() && bullet.collider.wf()
                        && bullet.damage.wf());
                }
                let mut s: usize = 0;
                while s < shots
                    invariant
                        s <= shots,
                        bullet == bullet_of(m, i as int),
                        i < n,
                        shots == shot_count(m.events),
                        buffer@ == bullets_upto(m, i as int) + Seq::new(
                            s as nat,
                            |q: int| bullet_of(m, i as int),
                        ),
                        bullet.transform.wf() && bullet.physics.wf() && bullet.collider.wf()
                            && bullet.damage.wf(),
                        forall|b: int|
                            0 <= b < buffer@.len() ==> (#[trigger] buffer@[b]).transform.wf()
                                && buffer@[b].physics.wf() && buffer@[b].collider.wf()
                                && buffer@[b].damage.wf(),
                    decreases shots - s,
                {
                    buffer.push(bullet);
                    proof {
                        assert(bullets_upto(m, i as int) + Seq::new(
                            (s + 1) as nat,
                            |q: int| bullet_of(m, i as int),
                        ) =~= (bullets_upto(m, i as int) + Seq::new(
                            s as nat,
                            |q: int| bullet_of(m, i as int),
                        )).push(bullet));
                    }
                    s = s + 1;
                }
                proof {
                    assert(buffer@ =~= bullets_upto(m, i + 1));
                }
            } else {
                proof {
                    assert(buffer@ =~= bullets_upto(m, i + 1));
                }
            }
            i = i + 1;
        }
        // The scan is over: create the buffered bullets.
        let num_bullets = buffer.len();
        let mut q: usize = 0;
        while q < num_bullets
            invariant
                old(w).wf(),
                w.wf(),
                m == old(w).model(),
                q <= num_bullets,
                num_bullets == buffer@.len(),
                buffer@ == bullets_upto(m, m.n()),
                forall|b: int|
                    0 <= b < num_bullets ==> (#[trigger] buffer@[b]).transform.wf()
                        && buffer@[b].physics.wf() && buffer@[b].collider.wf()
                        && buffer@[b].damage.wf(),
                w.model() == spec_spawn_all(m, buffer@.take(q as int)),
            decreases num_bullets - q,
        {
            let bullet = buffer[q];
            proof {
                assert(buffer@.take(q + 1) =~= buffer@.take(q as int).push(buffer@[q as int]));
                lemma_spawn_all_push(m, buffer@.take(q as int), buffer@[q as int]);
            }
            let ghost before = w.model();
            w.alive.push(true);
            w.transforms.push(Some(bullet.transform));
            w.physics.push(Some(bullet.physics));
            w.colliders.push(Some(bullet.collider));
            w.shapes.push(Some(Shape::Unit { obj_path: BULLET_OBJ_PATH.to_owned() }));
            w.guns.push(None);
            w.thrusters.push(None);
            w.damages.push(Some(bullet.damage));
            w.healths.push(None);
            w.cameras.push(None);
            w.follow_cameras.push(None);
            w.pulsates.push(None);
            w.despawns.push(Some(Despawn));
            w.transformables.push(None);
            proof {
                assert(w.model().shapes =~= before.shapes.push(
                    Some(ShapeView::Unit { obj_path: BULLET_OBJ_PATH@ }),
                ));
                assert(w.model() =~= spec_spawn_bullet(before, buffer@[q as int]));
            }
            q = q + 1;
        }
        proof {
            assert(buffer@.take(num_bullets as int) =~= buffer@);
            assert(w.model() == spec_shoot_system(m));
        }
    }
}

} // verus!
