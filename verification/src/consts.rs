//! Fixed engine constants: the world boundary volume, the bullet template
//! values used when a gun fires, and the per-event sensitivities of the
//! transform-edit and camera systems.

use vstd::prelude::*;

use crate::data::AABB;
use crate::math::Vector3;

verus! {

/// Half-size, per axis, of the world boundary volume entities despawn outside of.
pub const WORLD_HALF_SIZE: i64 = 2500;

/// Mesh asset spawned for every bullet.
pub const BULLET_OBJ_PATH: &'static str = "models/bullet.obj";

/// Per-axis scale of a freshly spawned bullet.
pub const BULLET_SCALE: i64 = 2;

/// Position delta per transform-edit movement event.
pub const MOVEMENT_SPEED: i64 = 5;

/// Scale delta per transform-edit grow or shrink event.
pub const GROW_SPEED: i64 = 1;

/// Zoom delta per camera zoom event.
pub const ZOOM_LEVEL_SENSITIVITY: i64 = 2;

/// Offset delta per camera move event.
pub const MOVE_SENSITIVITY: i64 = 2;

/// The world boundary volume: centred on the origin, half-size
/// [`WORLD_HALF_SIZE`] per axis.
pub open spec fn spec_world_bounding_box() -> AABB {
    AABB {
        middle_point: Vector3 { x: 0, y: 0, z: 0 },
        half_size: Vector3 { x: WORLD_HALF_SIZE, y: WORLD_HALF_SIZE, z: WORLD_HALF_SIZE },
    }
}

/// The world boundary volume the despawn system tests against.
pub fn world_bounding_box() -> (r: AABB)
    ensures
        r == spec_world_bounding_box(),
{
    AABB {
        middle_point: Vector3 { x: 0, y: 0, z: 0 },
        half_size: Vector3 { x: WORLD_HALF_SIZE, y: WORLD_HALF_SIZE, z: WORLD_HALF_SIZE },
    }
}

} // verus!
