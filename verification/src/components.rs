//! The per-entity component types and their well-formedness bounds.
//!
//! Every component is plain integer data. A component is well formed when its
//! fields lie within the ranges of [`crate::math`]; the world invariant keeps
//! every stored component well formed, which is what makes each system's
//! arithmetic safe.

use vstd::prelude::*;

use crate::data::AABB;
use crate::math::{Matrix3, Vector3, COORD_BOUND, VAL_BOUND};

verus! {

/// Position, per-axis scale and orientation of an entity.
#[derive(Clone, Copy, Debug, PartialEq, Eq, Structural)]
pub struct Transform {
    pub position: Vector3,
    pub scale: Vector3,
    pub orientation: Matrix3,
}

impl Transform {
    pub open spec fn wf(self) -> bool {
        &&& self.position.in_bound(COORD_BOUND as int)
        &&& self.scale.in_bound(VAL_BOUND as int)
        &&& self.orientation.in_bound(VAL_BOUND as int)
    }
}

/// Signed displacement applied per frame along each of the entity's local axes.
#[derive(Clone, Copy, Debug, PartialEq, Eq, Structural)]
pub struct Physics {
    pub velocity: Vector3,
}

impl Physics {
    pub open spec fn wf(self) -> bool {
        self.velocity.in_bound(VAL_BOUND as int)
    }
}

/// Extra axis-aligned half-size marking an entity as collidable.
#[derive(Clone, Copy, Debug, PartialEq, Eq, Structural)]
pub struct Collider {
    pub half_size: Vector3,
}

impl Collider {
    pub open spec fn wf(self) -> bool {
        self.half_size.in_bound(VAL_BOUND as int)
    }
}

/// Damage carried by an entity, credited to the `damage_dealer`.
#[derive(Clone, Copy, Debug, PartialEq, Eq, Structural)]
pub struct Damage {
    pub damage: i64,
    pub despawn_entity_on_impact: bool,
    pub damage_dealer: usize,
}

impl Damage {
    pub open spec fn wf(self) -> bool {
        -VAL_BOUND <= self.damage <= VAL_BOUND
    }
}

/// A scalar; the entity is scheduled for deletion once it is driven to zero or
/// below.
#[derive(Clone, Copy, Debug, PartialEq, Eq, Structural)]
pub struct Health {
    pub health: i64,
}

impl Health {
    pub open spec fn wf(self) -> bool {
        -COORD_BOUND <= self.health <= COORD_BOUND
    }
}

/// Template for the projectiles an entity fires.
#[derive(Clone, Copy, Debug, PartialEq, Eq, Structural)]
pub struct Gun {
    pub damage: i64,
    pub velocity: Vector3,
    pub despawn_bullet_on_impact: bool,
}

impl Gun {
    pub open spec fn wf(self) -> bool {
        &&& -VAL_BOUND <= self.damage <= VAL_BOUND
        &&& self.velocity.in_bound(VAL_BOUND as int)
    }
}

/// Acceleration applied to the entity's velocity on thrust input.
#[derive(Clone, Copy, Debug, PartialEq, Eq, Structural)]
pub struct Thruster {
    pub power: Vector3,
}

impl Thruster {
    pub open spec fn wf(self) -> bool {
        self.power.in_bound(VAL_BOUND as int)
    }
}

/// Oscillating scale animation between two per-axis extremes.
#[derive(Clone, Copy, Debug, PartialEq, Eq, Structural)]
pub struct Pulsate {
    /// Per-axis growth per frame; a magnitude, never negative.
    pub speed: Vector3,
    /// `true` while growing, `false` while shrinking.
    pub current_direction: bool,
    pub max_scale: Vector3,
    pub min_scale: Vector3,
}

impl Pulsate {
    pub open spec fn wf(self) -> bool {
        &&& self.speed.in_bound(VAL_BOUND as int)
        &&& 0 <= self.speed.x && 0 <= self.speed.y && 0 <= self.speed.z
        &&& self.max_scale.in_bound(VAL_BOUND as int)
        &&& self.min_scale.in_bound(VAL_BOUND as int)
    }
}

/// Camera placement relative to the entity it follows.
#[derive(Clone, Copy, Debug, PartialEq, Eq, Structural)]
pub struct Camera {
    pub zoom_level: i64,
    pub offset: Vector3,
    pub orientation: Matrix3,
}

impl Camera {
    pub open spec fn wf(self) -> bool {
        &&& -COORD_BOUND <= self.zoom_level <= COORD_BOUND
        &&& self.offset.in_bound(COORD_BOUND as int)
        &&& self.orientation.in_bound(VAL_BOUND as int)
    }
}

/// Camera offset and zoom read by the renderer when drawing a frame.
#[derive(Clone, Copy, Debug, PartialEq, Eq, Structural)]
pub struct FollowCamera {
    pub zoom_level: i64,
    pub offset: Vector3,
}

impl FollowCamera {
    pub open spec fn wf(self) -> bool {
        &&& -COORD_BOUND <= self.zoom_level <= COORD_BOUND
        &&& self.offset.in_bound(COORD_BOUND as int)
    }
}

/// Marker: the entity is checked against the world boundary every frame.
#[derive(Clone, Copy, Debug, PartialEq, Eq, Structural)]
pub struct Despawn;

/// Marker: the entity accepts free-form transform editing.
#[derive(Clone, Copy, Debug, PartialEq, Eq, Structural)]
pub struct Transformable;

/// The two-state lifecycle of an entity's mesh. It starts as `Unit`, an
/// unresolved reference to a mesh asset, and the external render collaborator
/// turns it exactly once into `Init`, carrying a mesh handle and the mesh's
/// local-space bounding box. The simulation only ever reads the bounding box
/// of an `Init` shape and skips entities still in `Unit`.
#[derive(Clone, Debug, PartialEq)]
pub enum Shape {
    Init { tess_id: usize, bounding_box: AABB, bounding_box_tess_id: Option<usize> },
    Unit { obj_path: String },
}

/// Mathematical image of a [`Shape`]: the asset path as a character sequence.
pub ghost enum ShapeView {
    Init { tess_id: usize, bounding_box: AABB, bounding_box_tess_id: Option<usize> },
    Unit { obj_path: Seq<char> },
}

impl Shape {
    pub open spec fn view(self) -> ShapeView {
        match self {
            Shape::Init { tess_id, bounding_box, bounding_box_tess_id } => ShapeView::Init {
                tess_id,
                bounding_box,
                bounding_box_tess_id,
            },
            Shape::Unit { obj_path } => ShapeView::Unit { obj_path: obj_path@ },
        }
    }
}

impl ShapeView {
    pub open spec fn wf(self) -> bool {
        match self {
            ShapeView::Init { bounding_box, .. } => bounding_box.in_bound(VAL_BOUND as int),
            ShapeView::Unit { .. } => true,
        }
    }

    /// The bounding box, meaningful only for a resolved shape.
    pub open spec fn bb(self) -> AABB
        recommends
            self is Init,
    {
        self->Init_bounding_box
    }
}

} // verus!
