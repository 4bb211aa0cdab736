//! Tests of the integer math, the box overlap test, the event drain and the
//! bounding-extent computation.

use doem::components::Transform;
use doem::data::AABB;
use doem::events::drain_polled_events;
use doem::events::Action;
use doem::events::InputEvent;
use doem::events::Key;
use doem::math::add_clamped_i64;
use doem::math::mat_vec;
use doem::math::sub_clamped_i64;
use doem::math::Matrix3;
use doem::math::Vector3;
use doem::math::COORD_BOUND;
use doem::math::VAL_BOUND;
use doem::mesh::bounding_extents;
use doem::mesh::parse_max_value;
use doem::mesh::parse_min_value;
use doem::mesh::Vertex;
use doem::systems::collision_detector_3::CollisionDetector3;

fn v(x: i64, y: i64, z: i64) -> Vector3 {
    Vector3 { x, y, z }
}

fn plain_transform(pos: Vector3, scale: Vector3) -> Transform {
    Transform { position: pos, scale, orientation: Matrix3::identity() }
}

#[test]
fn clamped_arithmetic_is_exact_inside_the_range() {
    assert_eq!(add_clamped_i64(3, 4, VAL_BOUND), 7);
    assert_eq!(sub_clamped_i64(3, 4, VAL_BOUND), -1);
    assert_eq!(add_clamped_i64(-5, 5, VAL_BOUND), 0);
}

#[test]
fn clamped_arithmetic_saturates_at_the_bounds() {
    assert_eq!(add_clamped_i64(VAL_BOUND, 1, VAL_BOUND), VAL_BOUND);
    assert_eq!(sub_clamped_i64(-VAL_BOUND, 1, VAL_BOUND), -VAL_BOUND);
    assert_eq!(sub_clamped_i64(-COORD_BOUND, 5, COORD_BOUND), -COORD_BOUND);
    assert_eq!(add_clamped_i64(COORD_BOUND, COORD_BOUND, COORD_BOUND), COORD_BOUND);
}

#[test]
fn mat_vec_multiplies_by_columns() {
    let m = Matrix3 { cx: v(0, 1, 0), cy: v(-1, 0, 0), cz: v(0, 0, 1) };
    let r = mat_vec(&m, &v(2, 3, 4));
    assert_eq!(r, v(-3, 2, 4));
}

#[test]
fn boxes_touching_on_one_axis_overlap_inclusively() {
    // Box 1 covers [-1, 1] on x; box 2 covers [1, 3]: exactly touching.
    let bb = AABB { middle_point: v(0, 0, 0), half_size: v(1, 1, 1) };
    let t1 = plain_transform(v(0, 0, 0), v(1, 1, 1));
    let t2 = plain_transform(v(2, 0, 0), v(1, 1, 1));
    assert!(CollisionDetector3::square_overlaps(&bb, &t1, &bb, &t2));
}

#[test]
fn boxes_past_touching_do_not_overlap() {
    // Box 2 moved one unit beyond touching: [2, 4] against [-1, 1].
    let bb = AABB { middle_point: v(0, 0, 0), half_size: v(1, 1, 1) };
    let t1 = plain_transform(v(0, 0, 0), v(1, 1, 1));
    let t2 = plain_transform(v(3, 0, 0), v(1, 1, 1));
    assert!(!CollisionDetector3::square_overlaps(&bb, &t1, &bb, &t2));
}

#[test]
fn overlap_needs_all_three_axes() {
    let bb = AABB { middle_point: v(0, 0, 0), half_size: v(1, 1, 1) };
    let t1 = plain_transform(v(0, 0, 0), v(1, 1, 1));
    // Overlapping on x and y, separated on z.
    let t2 = plain_transform(v(1, 1, 5), v(1, 1, 1));
    assert!(!CollisionDetector3::square_overlaps(&bb, &t1, &bb, &t2));
}

#[test]
fn overlap_test_is_symmetric() {
    let bb1 = AABB { middle_point: v(1, 0, 0), half_size: v(2, 1, 1) };
    let bb2 = AABB { middle_point: v(0, 0, 0), half_size: v(1, 3, 1) };
    let t1 = plain_transform(v(0, 2, 0), v(1, 1, 1));
    let t2 = plain_transform(v(2, 0, 0), v(2, 1, 1));
    assert_eq!(
        CollisionDetector3::square_overlaps(&bb1, &t1, &bb2, &t2),
        CollisionDetector3::square_overlaps(&bb2, &t2, &bb1, &t1),
    );
}

#[test]
fn scale_stretches_the_world_box() {
    // Half-size 1 at scale 10 covers [-10, 10]: overlaps a box at x = 9.
    let bb = AABB { middle_point: v(0, 0, 0), half_size: v(1, 1, 1) };
    let t1 = plain_transform(v(0, 0, 0), v(10, 10, 10));
    let t2 = plain_transform(v(9, 0, 0), v(1, 1, 1));
    assert!(CollisionDetector3::square_overlaps(&bb, &t1, &bb, &t2));
}

#[test]
fn drain_splits_polled_events() {
    let polled = vec![
        InputEvent::Key(Key::W, Action::Press),
        InputEvent::Close,
        InputEvent::Key(Key::B, Action::Press),
        InputEvent::FramebufferSize,
        InputEvent::Key(Key::Escape, Action::Release),
        InputEvent::Key(Key::Space, Action::Press),
    ];
    let digest = drain_polled_events(&polled);
    assert!(digest.quit);
    assert!(digest.resize);
    assert_eq!(digest.bounding_box_toggles, 1);
    assert_eq!(
        digest.retained,
        vec![
            InputEvent::Key(Key::W, Action::Press),
            InputEvent::Key(Key::Space, Action::Press),
        ],
    );
}

#[test]
fn drain_keeps_everything_ordinary() {
    let polled = vec![
        InputEvent::Key(Key::A, Action::Repeat),
        InputEvent::Key(Key::Escape, Action::Press),
    ];
    // Escape only quits on release.
    let digest = drain_polled_events(&polled);
    assert!(!digest.quit);
    assert!(!digest.resize);
    assert_eq!(digest.bounding_box_toggles, 0);
    assert_eq!(digest.retained, polled);
}

#[test]
fn parse_min_and_max_fold_correctly() {
    assert_eq!(parse_min_value(None, 7), Some(7));
    assert_eq!(parse_min_value(Some(3), 7), Some(3));
    assert_eq!(parse_min_value(Some(9), 7), Some(7));
    assert_eq!(parse_max_value(None, -2), Some(-2));
    assert_eq!(parse_max_value(Some(3), 7), Some(7));
    assert_eq!(parse_max_value(Some(9), 7), Some(9));
}

#[test]
fn bounding_extents_of_vertices() {
    let color = v(0, 0, 0);
    let vertices = vec![
        Vertex { pos: v(1, -5, 2), color },
        Vertex { pos: v(-3, 4, 2), color },
        Vertex { pos: v(0, 0, 9), color },
    ];
    let (lo, hi) = bounding_extents(&vertices).unwrap();
    assert_eq!(lo, v(-3, -5, 2));
    assert_eq!(hi, v(1, 4, 9));
}

#[test]
fn aabb_wireframe_geometry() {
    let aabb = AABB { middle_point: v(1, 0, 0), half_size: v(2, 3, 4) };
    let (vertices, indices) = doem::mesh::generate_aabb(&aabb);
    assert_eq!(vertices.len(), 12);
    assert_eq!(indices.len(), 32);
    // The first corner is the minimum corner, the eighth the maximum.
    assert_eq!(vertices[0].pos, v(-1, -3, -4));
    assert_eq!(vertices[7].pos, v(3, 3, 4));
    // Axis markers reach twice the upper corner along each axis.
    assert_eq!(vertices[9].pos, v(6, 0, 0));
    assert_eq!(vertices[10].pos, v(0, 6, 0));
    assert_eq!(vertices[11].pos, v(0, 0, 8));
    assert_eq!(&indices[0..4], &[0, 1, 0, 3]);
    assert_eq!(&indices[26..32], &[8, 9, 8, 10, 8, 11]);
}

#[test]
fn bounding_extents_of_nothing() {
    let vertices: Vec<Vertex> = Vec::new();
    assert!(bounding_extents(&vertices).is_none());
}
