//! Scenario tests of the simulation systems over a real world.

use doem::components::Collider;
use doem::components::Damage;
use doem::components::Gun;
use doem::components::Health;
use doem::components::Physics;
use doem::components::Pulsate;
use doem::components::Shape;
use doem::components::Thruster;
use doem::components::Transform;
use doem::data::AABB;
use doem::dispatcher::DoemDispatcher;
use doem::events::Action;
use doem::events::InputEvent;
use doem::events::Key;
use doem::math::Matrix3;
use doem::math::Vector3;
use doem::systems::collision_detector_3::CollisionDetector3;
use doem::systems::damage_system::DamageSystem;
use doem::systems::despawn_system::DespawnSystem;
use doem::systems::physics_system::PhysicsSystem;
use doem::systems::pulsate_system::PulsateSystem;
use doem::systems::shoot_system::ShootSystem;
use doem::systems::thruster_system::ThrusterSystem;
use doem::systems::transformations_system::TransformationsSystem;
use doem::world::DoemWorld;
use doem::world::World;

fn v(x: i64, y: i64, z: i64) -> Vector3 {
    Vector3 { x, y, z }
}

fn unit_box() -> AABB {
    AABB { middle_point: v(0, 0, 0), half_size: v(1, 1, 1) }
}

fn resolved_shape() -> Shape {
    Shape::Init { tess_id: 0, bounding_box: unit_box(), bounding_box_tess_id: None }
}

fn plain_transform(pos: Vector3) -> Transform {
    Transform { position: pos, scale: v(1, 1, 1), orientation: Matrix3::identity() }
}

/// A collidable entity: transform, collider and resolved unit-box shape.
fn spawn_collidable(w: &mut World, pos: Vector3) -> usize {
    let id = w.create_entity();
    w.insert_transform(id, plain_transform(pos));
    w.insert_collider(id, Collider { half_size: v(0, 0, 0) });
    w.insert_shape(id, resolved_shape());
    id
}

#[test]
fn collision_set_is_canonical_and_symmetric() {
    let mut w = DoemWorld::new();
    let a = spawn_collidable(&mut w, v(0, 0, 0));
    let b = spawn_collidable(&mut w, v(1, 0, 0));
    let _far = spawn_collidable(&mut w, v(100, 0, 0));
    CollisionDetector3.run(&mut w);
    let pairs = w.collision_pairs().clone();
    // One canonical entry, never both orderings, never a pair with itself.
    assert_eq!(pairs, vec![(a, b)]);
    assert!(!pairs.contains(&(b, a)));
    assert!(!pairs.contains(&(a, a)));
}

#[test]
fn unresolved_shapes_are_skipped_by_detection() {
    let mut w = DoemWorld::new();
    let a = w.create_entity();
    w.insert_transform(a, plain_transform(v(0, 0, 0)));
    w.insert_collider(a, Collider { half_size: v(0, 0, 0) });
    w.insert_shape(a, Shape::Unit { obj_path: String::from("models/starship.obj") });
    let _b = spawn_collidable(&mut w, v(0, 0, 0));
    CollisionDetector3.run(&mut w);
    assert!(w.collision_pairs().is_empty());
}

#[test]
fn resolving_a_shape_makes_it_collidable() {
    let mut w = DoemWorld::new();
    let a = w.create_entity();
    w.insert_transform(a, plain_transform(v(0, 0, 0)));
    w.insert_collider(a, Collider { half_size: v(0, 0, 0) });
    w.insert_shape(a, Shape::Unit { obj_path: String::from("models/starship.obj") });
    let b = spawn_collidable(&mut w, v(0, 0, 0));
    w.resolve_shape(a, 7, unit_box(), None);
    CollisionDetector3.run(&mut w);
    assert_eq!(w.collision_pairs().clone(), vec![(a, b)]);
    // The transition happens exactly once: resolving again changes nothing.
    w.resolve_shape(a, 9, unit_box(), Some(3));
    match w.shape_of(a) {
        Some(Shape::Init { tess_id, .. }) => assert_eq!(*tess_id, 7),
        _ => panic!("shape should stay resolved with its first handle"),
    }
}

#[test]
fn physics_leaves_zero_velocity_entities_alone() {
    let mut w = DoemWorld::new();
    let id = w.create_entity();
    w.insert_transform(id, plain_transform(v(3, 4, 5)));
    w.insert_physics(id, Physics { velocity: v(0, 0, 0) });
    for _ in 0..10 {
        PhysicsSystem.run(&mut w);
    }
    assert_eq!(w.transform_of(id).unwrap().position, v(3, 4, 5));
}

#[test]
fn physics_integrates_velocity_along_the_orientation() {
    let mut w = DoemWorld::new();
    let id = w.create_entity();
    w.insert_transform(id, plain_transform(v(0, 0, 0)));
    w.insert_physics(id, Physics { velocity: v(1, 2, 3) });
    PhysicsSystem.run(&mut w);
    assert_eq!(w.transform_of(id).unwrap().position, v(1, 2, 3));
    // A quarter turn about z maps the local x axis onto world y.
    let rotated = TransformationsSystem::rotate_z(&Matrix3::identity(), &resolved_shape(), true);
    let t = Transform { position: v(0, 0, 0), scale: v(1, 1, 1), orientation: rotated };
    w.insert_transform(id, t);
    w.insert_physics(id, Physics { velocity: v(1, 0, 0) });
    PhysicsSystem.run(&mut w);
    assert_eq!(w.transform_of(id).unwrap().position, v(0, 1, 0));
}

#[test]
fn damage_reduces_health_and_schedules_the_dead() {
    // A 150-damage bullet (dealt by a third party) overlaps a 100-health
    // target: the target dies, the bullet has no despawn flag and survives.
    let mut w = DoemWorld::new();
    let bullet = spawn_collidable(&mut w, v(0, 0, 0));
    let target = spawn_collidable(&mut w, v(1, 0, 0));
    let shooter = w.create_entity();
    w.insert_damage(
        bullet,
        Damage { damage: 150, despawn_entity_on_impact: false, damage_dealer: shooter },
    );
    w.insert_health(target, Health { health: 100 });
    CollisionDetector3.run(&mut w);
    DamageSystem.run(&mut w);
    assert_eq!(w.health_of(target).unwrap().health, -50);
    assert_eq!(w.scheduled_deletions().clone(), vec![target]);
    // Scheduling is not deletion: the target is intact until maintenance.
    assert!(w.is_alive(target));
    assert!(w.transform_of(target).is_some());
    w.maintain();
    assert!(!w.is_alive(target));
    assert!(w.health_of(target).is_none());
    assert!(w.transform_of(target).is_none());
    assert!(w.is_alive(bullet));
}

#[test]
fn no_self_damage_from_an_entitys_own_component() {
    // The damage carrier names itself as dealer: its damage never flows,
    // so the overlapping neighbour keeps its health.
    let mut w = DoemWorld::new();
    let x = spawn_collidable(&mut w, v(0, 0, 0));
    let y = spawn_collidable(&mut w, v(1, 0, 0));
    w.insert_damage(x, Damage { damage: 40, despawn_entity_on_impact: true, damage_dealer: x });
    w.insert_health(x, Health { health: 50 });
    w.insert_health(y, Health { health: 50 });
    CollisionDetector3.run(&mut w);
    DamageSystem.run(&mut w);
    assert_eq!(w.health_of(x).unwrap().health, 50);
    assert_eq!(w.health_of(y).unwrap().health, 50);
    assert!(w.scheduled_deletions().is_empty());
}

#[test]
fn mutual_destruction_in_a_single_frame() {
    let mut w = DoemWorld::new();
    let a = spawn_collidable(&mut w, v(0, 0, 0));
    let b = spawn_collidable(&mut w, v(1, 0, 0));
    let third: usize = 1000;
    w.insert_damage(a, Damage { damage: 10, despawn_entity_on_impact: false, damage_dealer: third });
    w.insert_damage(b, Damage { damage: 10, despawn_entity_on_impact: false, damage_dealer: third });
    w.insert_health(a, Health { health: 5 });
    w.insert_health(b, Health { health: 5 });
    CollisionDetector3.run(&mut w);
    DamageSystem.run(&mut w);
    w.maintain();
    assert!(!w.is_alive(a));
    assert!(!w.is_alive(b));
}

#[test]
fn damage_on_impact_despawns_the_attacker() {
    let mut w = DoemWorld::new();
    let bullet = spawn_collidable(&mut w, v(0, 0, 0));
    let wall = spawn_collidable(&mut w, v(1, 0, 0));
    let shooter = w.create_entity();
    w.insert_damage(
        bullet,
        Damage { damage: 20, despawn_entity_on_impact: true, damage_dealer: shooter },
    );
    // The wall has no health: nothing to reduce, but the flag still fires.
    CollisionDetector3.run(&mut w);
    DamageSystem.run(&mut w);
    w.maintain();
    assert!(!w.is_alive(bullet));
    assert!(w.is_alive(wall));
}

#[test]
fn deferred_deletion_is_atomic() {
    let mut w = DoemWorld::new();
    let a = spawn_collidable(&mut w, v(0, 0, 0));
    let b = spawn_collidable(&mut w, v(1, 0, 0));
    w.delete_entity(a);
    // Mid-frame the deleted entity is still fully visible to systems.
    assert!(w.is_alive(a));
    assert!(w.transform_of(a).is_some());
    CollisionDetector3.run(&mut w);
    assert_eq!(w.collision_pairs().clone(), vec![(a, b)]);
    w.maintain();
    // After maintenance it is gone and no storage yields it.
    assert!(!w.is_alive(a));
    assert!(w.transform_of(a).is_none());
    assert!(w.shape_of(a).is_none());
    CollisionDetector3.run(&mut w);
    assert!(w.collision_pairs().is_empty());
}

#[test]
fn deleting_a_missing_entity_is_recovered_locally() {
    let mut w = DoemWorld::new();
    let a = w.create_entity();
    w.delete_entity(a);
    w.delete_entity(a);
    w.delete_entity(999);
    w.maintain();
    assert!(!w.is_alive(a));
    assert_eq!(w.num_entities(), 1);
    // The buffer was drained; another maintenance is a no-op.
    w.maintain();
    assert!(w.scheduled_deletions().is_empty());
}

#[test]
fn pulsate_clamps_onto_the_maximum_and_flips() {
    // Growing at speed 2 from scale 9 toward maximum 10: one tick lands
    // exactly on 10, not 11, and the direction flips to shrinking.
    let mut w = DoemWorld::new();
    let id = w.create_entity();
    let mut t = plain_transform(v(0, 0, 0));
    t.scale = v(9, 9, 9);
    w.insert_transform(id, t);
    w.insert_pulsate(
        id,
        Pulsate {
            speed: v(2, 2, 2),
            current_direction: true,
            max_scale: v(10, 10, 10),
            min_scale: v(4, 4, 4),
        },
    );
    PulsateSystem.run(&mut w);
    assert_eq!(w.transform_of(id).unwrap().scale, v(10, 10, 10));
    assert!(!w.pulsate_of(id).unwrap().current_direction);
    // The next tick shrinks normally.
    PulsateSystem.run(&mut w);
    assert_eq!(w.transform_of(id).unwrap().scale, v(8, 8, 8));
}

#[test]
fn pulsate_clamps_onto_the_minimum_and_flips() {
    let mut w = DoemWorld::new();
    let id = w.create_entity();
    let mut t = plain_transform(v(0, 0, 0));
    t.scale = v(5, 5, 5);
    w.insert_transform(id, t);
    w.insert_pulsate(
        id,
        Pulsate {
            speed: v(2, 2, 2),
            current_direction: false,
            max_scale: v(10, 10, 10),
            min_scale: v(4, 4, 4),
        },
    );
    PulsateSystem.run(&mut w);
    assert_eq!(w.transform_of(id).unwrap().scale, v(4, 4, 4));
    assert!(w.pulsate_of(id).unwrap().current_direction);
}

fn spawn_shooter(w: &mut World) -> usize {
    let id = w.create_entity();
    w.insert_transform(id, plain_transform(v(0, 30, 0)));
    w.insert_physics(id, Physics { velocity: v(0, 0, 0) });
    w.insert_gun(
        id,
        Gun { damage: 20, velocity: v(5, 0, 0), despawn_bullet_on_impact: true },
    );
    id
}

#[test]
fn firing_once_spawns_one_configured_projectile() {
    let mut w = DoemWorld::new();
    let shooter = spawn_shooter(&mut w);
    w.set_events(vec![InputEvent::Key(Key::Space, Action::Press)]);
    ShootSystem.run(&mut w);
    assert_eq!(w.num_entities(), 2);
    let bullet = 1;
    assert_eq!(w.physics_of(bullet).unwrap().velocity, v(5, 0, 0));
    let d = w.damage_of(bullet).unwrap();
    assert_eq!(d.damage, 20);
    assert_eq!(d.damage_dealer, shooter);
    assert!(d.despawn_entity_on_impact);
    assert!(w.has_despawn(bullet));
    // The projectile inherits position and orientation, at the bullet scale,
    // with an unresolved bullet shape.
    let t = w.transform_of(bullet).unwrap();
    assert_eq!(t.position, v(0, 30, 0));
    assert_eq!(t.scale, v(2, 2, 2));
    match w.shape_of(bullet) {
        Some(Shape::Unit { obj_path }) => assert_eq!(obj_path, "models/bullet.obj"),
        _ => panic!("a fresh bullet must carry an unresolved shape"),
    }
}

#[test]
fn firing_in_two_frames_spawns_two_projectiles() {
    let mut w = DoemWorld::new();
    let _shooter = spawn_shooter(&mut w);
    w.set_events(vec![InputEvent::Key(Key::Space, Action::Press)]);
    ShootSystem.run(&mut w);
    w.maintain();
    w.set_events(vec![InputEvent::Key(Key::Space, Action::Press)]);
    ShootSystem.run(&mut w);
    w.maintain();
    assert_eq!(w.num_entities(), 3);
    assert!(w.is_alive(1) && w.is_alive(2));
    assert_eq!(w.physics_of(1).unwrap().velocity, v(5, 0, 0));
    assert_eq!(w.physics_of(2).unwrap().velocity, v(5, 0, 0));
}

#[test]
fn two_triggers_in_one_frame_spawn_two_projectiles() {
    let mut w = DoemWorld::new();
    let _shooter = spawn_shooter(&mut w);
    w.set_events(vec![
        InputEvent::Key(Key::Space, Action::Press),
        InputEvent::Key(Key::Space, Action::Repeat),
    ]);
    ShootSystem.run(&mut w);
    assert_eq!(w.num_entities(), 3);
}

#[test]
fn shooter_velocity_adds_to_the_muzzle_velocity() {
    let mut w = DoemWorld::new();
    let shooter = spawn_shooter(&mut w);
    w.insert_physics(shooter, Physics { velocity: v(1, 2, 0) });
    w.set_events(vec![InputEvent::Key(Key::Space, Action::Press)]);
    ShootSystem.run(&mut w);
    assert_eq!(w.physics_of(1).unwrap().velocity, v(6, 2, 0));
}

#[test]
fn thruster_accelerates_decelerates_and_zeroes() {
    let mut w = DoemWorld::new();
    let id = w.create_entity();
    w.insert_physics(id, Physics { velocity: v(0, 0, 0) });
    w.insert_thruster(id, Thruster { power: v(1, 0, 0) });
    w.set_events(vec![
        InputEvent::Key(Key::LeftShift, Action::Press),
        InputEvent::Key(Key::LeftShift, Action::Repeat),
    ]);
    ThrusterSystem.run(&mut w);
    assert_eq!(w.physics_of(id).unwrap().velocity, v(2, 0, 0));
    w.set_events(vec![InputEvent::Key(Key::LeftControl, Action::Press)]);
    ThrusterSystem.run(&mut w);
    assert_eq!(w.physics_of(id).unwrap().velocity, v(1, 0, 0));
    w.set_events(vec![InputEvent::Key(Key::N, Action::Press)]);
    ThrusterSystem.run(&mut w);
    assert_eq!(w.physics_of(id).unwrap().velocity, v(0, 0, 0));
}

#[test]
fn despawn_deletes_entities_outside_the_world() {
    let mut w = DoemWorld::new();
    let outside = spawn_collidable(&mut w, v(5000, 0, 0));
    let inside = spawn_collidable(&mut w, v(0, 0, 0));
    w.insert_despawn(outside);
    w.insert_despawn(inside);
    DespawnSystem.run(&mut w);
    assert_eq!(w.scheduled_deletions().clone(), vec![outside]);
    w.maintain();
    assert!(!w.is_alive(outside));
    assert!(w.is_alive(inside));
}

#[test]
fn despawn_skips_unresolved_shapes_and_unmarked_entities() {
    let mut w = DoemWorld::new();
    // Far outside, but the shape is unresolved: cannot compute its box yet.
    let unresolved = w.create_entity();
    w.insert_transform(unresolved, plain_transform(v(5000, 0, 0)));
    w.insert_shape(unresolved, Shape::Unit { obj_path: String::from("models/donut.obj") });
    w.insert_despawn(unresolved);
    // Far outside with a resolved shape, but no despawn marker.
    let unmarked = spawn_collidable(&mut w, v(5000, 0, 0));
    DespawnSystem.run(&mut w);
    assert!(w.scheduled_deletions().is_empty());
    assert!(w.is_alive(unresolved) && w.is_alive(unmarked));
}

#[test]
fn a_frame_runs_damage_after_detection() {
    // One dispatch is enough for a fresh overlap to cost health, because the
    // damage system is ordered after the collision detector.
    let mut w = DoemWorld::new();
    let bullet = spawn_collidable(&mut w, v(0, 0, 0));
    let target = spawn_collidable(&mut w, v(1, 0, 0));
    let shooter = w.create_entity();
    w.insert_damage(
        bullet,
        Damage { damage: 150, despawn_entity_on_impact: true, damage_dealer: shooter },
    );
    w.insert_health(target, Health { health: 100 });
    let dispatcher = DoemDispatcher::new();
    dispatcher.dispatch(&mut w);
    w.maintain();
    assert!(!w.is_alive(target));
    assert!(!w.is_alive(bullet));
    assert!(w.is_alive(shooter));
}

#[test]
fn one_frame_feeds_every_system_the_same_events() {
    // Shoot is dispatched before thruster: the bullet fired this frame sees
    // the shooter's pre-thrust velocity, and the shooter thrusts afterwards.
    let mut w = DoemWorld::new();
    let shooter = spawn_shooter(&mut w);
    w.insert_thruster(shooter, Thruster { power: v(1, 0, 0) });
    w.set_events(vec![
        InputEvent::Key(Key::Space, Action::Press),
        InputEvent::Key(Key::LeftShift, Action::Press),
    ]);
    let dispatcher = DoemDispatcher::new();
    dispatcher.dispatch(&mut w);
    w.maintain();
    let bullet = 1;
    assert_eq!(w.physics_of(bullet).unwrap().velocity, v(5, 0, 0));
    assert_eq!(w.physics_of(shooter).unwrap().velocity, v(1, 0, 0));
    // Physics ran before the thrust landed: the shooter has not moved yet.
    assert_eq!(w.transform_of(shooter).unwrap().position, v(0, 30, 0));
}
