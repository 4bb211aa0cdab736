//! Tests of the input-driven transform-edit and camera systems.

use doem::components::Camera;
use doem::components::Shape;
use doem::components::Transform;
use doem::events::Action;
use doem::events::InputEvent;
use doem::events::Key;
use doem::math::Matrix3;
use doem::math::Vector3;
use doem::systems::camera_system::CameraSystem;
use doem::systems::transformations_system::TransformationsSystem;
use doem::world::DoemWorld;
use doem::world::World;
use doem::data::AABB;

fn v(x: i64, y: i64, z: i64) -> Vector3 {
    Vector3 { x, y, z }
}

fn resolved_shape() -> Shape {
    Shape::Init {
        tess_id: 0,
        bounding_box: AABB { middle_point: v(0, 0, 0), half_size: v(1, 1, 1) },
        bounding_box_tess_id: None,
    }
}

fn spawn_editable(w: &mut World) -> usize {
    let id = w.create_entity();
    w.insert_transform(
        id,
        Transform { position: v(0, 0, 0), scale: v(3, 3, 3), orientation: Matrix3::identity() },
    );
    w.insert_shape(id, resolved_shape());
    w.insert_transformable(id);
    id
}

#[test]
fn movement_keys_shift_the_position() {
    let mut w = DoemWorld::new();
    let id = spawn_editable(&mut w);
    w.set_events(vec![
        InputEvent::Key(Key::A, Action::Press),
        InputEvent::Key(Key::S, Action::Press),
        InputEvent::Key(Key::S, Action::Repeat),
    ]);
    TransformationsSystem.run(&mut w);
    // A adds 5 on z; each S adds 5 on x.
    assert_eq!(w.transform_of(id).unwrap().position, v(10, 0, 5));
}

#[test]
fn opposite_movement_keys_cancel() {
    let mut w = DoemWorld::new();
    let id = spawn_editable(&mut w);
    w.set_events(vec![
        InputEvent::Key(Key::W, Action::Press),
        InputEvent::Key(Key::S, Action::Press),
        InputEvent::Key(Key::A, Action::Press),
        InputEvent::Key(Key::D, Action::Press),
    ]);
    TransformationsSystem.run(&mut w);
    assert_eq!(w.transform_of(id).unwrap().position, v(0, 0, 0));
}

#[test]
fn grow_and_shrink_keys_step_the_scale() {
    let mut w = DoemWorld::new();
    let id = spawn_editable(&mut w);
    w.set_events(vec![
        InputEvent::Key(Key::Equal, Action::Press),
        InputEvent::Key(Key::Equal, Action::Repeat),
        InputEvent::Key(Key::Minus, Action::Press),
    ]);
    TransformationsSystem.run(&mut w);
    assert_eq!(w.transform_of(id).unwrap().scale, v(4, 4, 4));
}

#[test]
fn four_quarter_turns_come_back_around() {
    let mut w = DoemWorld::new();
    let id = spawn_editable(&mut w);
    w.set_events(vec![
        InputEvent::Key(Key::Q, Action::Press),
        InputEvent::Key(Key::Q, Action::Press),
        InputEvent::Key(Key::Q, Action::Press),
        InputEvent::Key(Key::Q, Action::Press),
    ]);
    TransformationsSystem.run(&mut w);
    assert_eq!(w.transform_of(id).unwrap().orientation, Matrix3::identity());
}

#[test]
fn opposite_quarter_turns_cancel() {
    let mut w = DoemWorld::new();
    let id = spawn_editable(&mut w);
    w.set_events(vec![
        InputEvent::Key(Key::Z, Action::Press),
        InputEvent::Key(Key::X, Action::Press),
    ]);
    TransformationsSystem.run(&mut w);
    assert_eq!(w.transform_of(id).unwrap().orientation, Matrix3::identity());
}

#[test]
fn rotation_composes_on_the_orientation() {
    let rotated = TransformationsSystem::rotate_x(&Matrix3::identity(), &resolved_shape(), true);
    // A positive quarter turn about x sends the y axis to z and z to -y.
    assert_eq!(rotated.cx, v(1, 0, 0));
    assert_eq!(rotated.cy, v(0, 0, 1));
    assert_eq!(rotated.cz, v(0, -1, 0));
}

#[test]
fn rotating_an_unresolved_shape_yields_the_identity() {
    let unresolved = Shape::Unit { obj_path: String::from("models/donut.obj") };
    let start = TransformationsSystem::rotate_x(&Matrix3::identity(), &resolved_shape(), true);
    let r = TransformationsSystem::rotate_y(&start, &unresolved, true);
    assert_eq!(r, Matrix3::identity());
}

#[test]
fn untransformable_entities_ignore_edit_keys() {
    let mut w = DoemWorld::new();
    let id = w.create_entity();
    w.insert_transform(
        id,
        Transform { position: v(0, 0, 0), scale: v(3, 3, 3), orientation: Matrix3::identity() },
    );
    w.insert_shape(id, resolved_shape());
    w.set_events(vec![InputEvent::Key(Key::A, Action::Press)]);
    TransformationsSystem.run(&mut w);
    assert_eq!(w.transform_of(id).unwrap().position, v(0, 0, 0));
}

fn spawn_camera(w: &mut World, offset: Vector3) -> usize {
    let id = w.create_entity();
    w.insert_camera(
        id,
        Camera { zoom_level: 10, offset, orientation: Matrix3::identity() },
    );
    w.insert_shape(id, resolved_shape());
    id
}

#[test]
fn camera_zooms_and_moves() {
    let mut w = DoemWorld::new();
    let id = spawn_camera(&mut w, v(20, 0, 0));
    w.set_events(vec![
        InputEvent::Key(Key::PageDown, Action::Press),
        InputEvent::Key(Key::H, Action::Press),
        InputEvent::Key(Key::K, Action::Press),
        InputEvent::Key(Key::K, Action::Repeat),
    ]);
    CameraSystem.run(&mut w);
    let c = w.camera_of(id).unwrap();
    assert_eq!(c.zoom_level, 12);
    assert_eq!(c.offset, v(20, 4, 2));
}

#[test]
fn camera_swings_around_the_vertical_axis() {
    let mut w = DoemWorld::new();
    let id = spawn_camera(&mut w, v(20, 0, 0));
    w.set_events(vec![InputEvent::Key(Key::Left, Action::Press)]);
    CameraSystem.run(&mut w);
    assert_eq!(w.camera_of(id).unwrap().offset, v(0, 0, 20));
    w.set_events(vec![InputEvent::Key(Key::Right, Action::Press)]);
    CameraSystem.run(&mut w);
    assert_eq!(w.camera_of(id).unwrap().offset, v(20, 0, 0));
}
