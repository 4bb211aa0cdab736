//! Axis-aligned bounding boxes and the overlap test they share.
//!
//! A box is a middle point and a per-axis half-size, both in the mesh's local
//! (untransformed) space. At detection time it is combined with an entity's
//! transform — translation and per-axis scale only, orientation is
//! deliberately ignored — to give a world-space interval per axis. Two boxes
//! overlap when the intervals meet on all three axes, bounds inclusive.

use vstd::prelude::*;

use crate::components::Transform;
use crate::math::Vector3;

verus! {

/// A bounding box in mesh-local space: a middle point and per-axis half-sizes.
#[derive(Clone, Copy, Debug, PartialEq, Eq, Structural)]
pub struct AABB {
    pub middle_point: Vector3,
    pub half_size: Vector3,
}

impl AABB {
    /// Both vectors lie within `bound` per component.
    pub open spec fn in_bound(self, bound: int) -> bool {
        &&& self.middle_point.in_bound(bound)
        &&& self.half_size.in_bound(bound)
    }
}

/// Lower end of a box's world-space interval along one axis:
/// `position + scale * middle - scale * half`.
pub open spec fn axis_min(pos: int, scale: int, mid: int, half: int) -> int {
    pos + scale * mid - scale * half
}

/// Upper end of a box's world-space interval along one axis:
/// `position + scale * middle + scale * half`.
pub open spec fn axis_max(pos: int, scale: int, mid: int, half: int) -> int {
    pos + scale * mid + scale * half
}

/// The lower x end of the world-space box of `b` under `t`.
pub open spec fn x_min(b: AABB, t: Transform) -> int {
    axis_min(t.position.x as int, t.scale.x as int, b.middle_point.x as int, b.half_size.x as int)
}

/// The upper x end of the world-space box of `b` under `t`.
pub open spec fn x_max(b: AABB, t: Transform) -> int {
    axis_max(t.position.x as int, t.scale.x as int, b.middle_point.x as int, b.half_size.x as int)
}

/// The lower y end of the world-space box of `b` under `t`.
pub open spec fn y_min(b: AABB, t: Transform) -> int {
    axis_min(t.position.y as int, t.scale.y as int, b.middle_point.y as int, b.half_size.y as int)
}

/// The upper y end of the world-space box of `b` under `t`.
pub open spec fn y_max(b: AABB, t: Transform) -> int {
    axis_max(t.position.y as int, t.scale.y as int, b.middle_point.y as int, b.half_size.y as int)
}

/// The lower z end of the world-space box of `b` under `t`.
pub open spec fn z_min(b: AABB, t: Transform) -> int {
    axis_min(t.position.z as int, t.scale.z as int, b.middle_point.z as int, b.half_size.z as int)
}

/// The upper z end of the world-space box of `b` under `t`.
pub open spec fn z_max(b: AABB, t: Transform) -> int {
    axis_max(t.position.z as int, t.scale.z as int, b.middle_point.z as int, b.half_size.z as int)
}

/// Two closed intervals meet, bounds inclusive.
pub open spec fn intervals_overlap(min1: int, max1: int, min2: int, max2: int) -> bool {
    min1 <= max2 && max1 >= min2
}

/// The world-space boxes of `(b1, t1)` and `(b2, t2)` overlap on every axis.
/// Only translation and per-axis scale enter; the entities' orientations are
/// ignored, so boxes stay axis-aligned however an entity rotates.
pub open spec fn aabb_overlap(b1: AABB, t1: Transform, b2: AABB, t2: Transform) -> bool {
    &&& intervals_overlap(x_min(b1, t1), x_max(b1, t1), x_min(b2, t2), x_max(b2, t2))
    &&& intervals_overlap(y_min(b1, t1), y_max(b1, t1), y_min(b2, t2), y_max(b2, t2))
    &&& intervals_overlap(z_min(b1, t1), z_max(b1, t1), z_min(b2, t2), z_max(b2, t2))
}

} // verus!
