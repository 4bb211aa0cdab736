//! Free-form transform editing driven by key input.
//!
//! Every transformable entity with a transform and a shape folds the frame's
//! events over its transform, in order: A/D and W/S move the position along
//! the world z and x axes, equal/minus grow or shrink the scale on all axes,
//! and Q/E, Z/X, R/F compose the orientation with an exact quarter-turn
//! about the local y, x and z axis. Positions saturate at the coordinate
//! range and scales at the value range.
//!
//! As in the rest of the crate, orientations are integer matrices, so the
//! rotation step is a quarter turn: composing with it permutes and negates
//! the orientation's columns and never leaves the integers. A rotation asked
//! of an entity whose shape is still unresolved yields the identity
//! orientation.

use vstd::prelude::*;
use vstd::pervasive::VecAdditionalExecFns;

use crate::components::{Shape, ShapeView, Transform};
use crate::consts::{GROW_SPEED, MOVEMENT_SPEED};
use crate::events::{is_key_active, Action, InputEvent, Key};
use crate::math::{
    add_clamped_i64, clamp_val, spec_neg, sub_clamped_i64, Matrix3, Vector3, COORD_BOUND,
    VAL_BOUND,
};
use crate::model::WorldModel;
use crate::world::World;

verus! {

/// The orientation composed with a quarter turn about the local x axis
/// (positive or negative), provided the shape is resolved; the identity
/// otherwise.
pub open spec fn spec_rotate_x(o: Matrix3, sv: ShapeView, positive: bool) -> Matrix3 {
    if sv is Init {
        if positive {
            Matrix3 { cx: o.cx, cy: o.cz, cz: spec_neg(o.cy) }
        } else {
            Matrix3 { cx: o.cx, cy: spec_neg(o.cz), cz: o.cy }
        }
    } else {
        Matrix3::spec_identity()
    }
}

/// The orientation composed with a quarter turn about the local y axis.
pub open spec fn spec_rotate_y(o: Matrix3, sv: ShapeView, positive: bool) -> Matrix3 {
    if sv is Init {
        if positive {
            Matrix3 { cx: spec_neg(o.cz), cy: o.cy, cz: o.cx }
        } else {
            Matrix3 { cx: o.cz, cy: o.cy, cz: spec_neg(o.cx) }
        }
    } else {
        Matrix3::spec_identity()
    }
}

/// The orientation composed with a quarter turn about the local z axis.
pub open spec fn spec_rotate_z(o: Matrix3, sv: ShapeView, positive: bool) -> Matrix3 {
    if sv is Init {
        if positive {
            Matrix3 { cx: o.cy, cy: spec_neg(o.cx), cz: o.cz }
        } else {
            Matrix3 { cx: spec_neg(o.cy), cy: o.cx, cz: o.cz }
        }
    } else {
        Matrix3::spec_identity()
    }
}

/// What one event does to one transformable entity's transform.
pub open spec fn spec_transform_event(t: Transform, sv: ShapeView, e: InputEvent) -> Transform {
    if is_key_active(e, Key::A) {
        Transform {
            position: Vector3 {
                z: clamp_val(t.position.z + MOVEMENT_SPEED, COORD_BOUND as int) as i64,
                ..t.position
            },
            ..t
        }
    } else if is_key_active(e, Key::D) {
        Transform {
            position: Vector3 {
                z: clamp_val(t.position.z - MOVEMENT_SPEED, COORD_BOUND as int) as i64,
                ..t.position
            },
            ..t
        }
    } else if is_key_active(e, Key::W) {
        Transform {
            position: Vector3 {
                x: clamp_val(t.position.x - MOVEMENT_SPEED, COORD_BOUND as int) as i64,
                ..t.position
            },
            ..t
        }
    } else if is_key_active(e, Key::S) {
        Transform {
            position: Vector3 {
                x: clamp_val(t.position.x + MOVEMENT_SPEED, COORD_BOUND as int) as i64,
                ..t.position
            },
            ..t
        }
    } else if is_key_active(e, Key::Equal) {
        Transform {
            scale: Vector3 {
                x: clamp_val(t.scale.x + GROW_SPEED, VAL_BOUND as int) as i64,
                y: clamp_val(t.scale.y + GROW_SPEED, VAL_BOUND as int) as i64,
                z: clamp_val(t.scale.z + GROW_SPEED, VAL_BOUND as int) as i64,
            },
            ..t
        }
    } else if is_key_active(e, Key::Minus) {
        Transform {
            scale: Vector3 {
                x: clamp_val(t.scale.x - GROW_SPEED, VAL_BOUND as int) as i64,
                y: clamp_val(t.scale.y - GROW_SPEED, VAL_BOUND as int) as i64,
                z: clamp_val(t.scale.z - GROW_SPEED, VAL_BOUND as int) as i64,
            },
            ..t
        }
    } else if is_key_active(e, Key::Q) {
        Transform { orientation: spec_rotate_y(t.orientation, sv, true), ..t }
    } else if is_key_active(e, Key::E) {
        Transform { orientation: spec_rotate_y(t.orientation, sv, false), ..t }
    } else if is_key_active(e, Key::Z) {
        Transform { orientation: spec_rotate_x(t.orientation, sv, true), ..t }
    } else if is_key_active(e, Key::X) {
        Transform { orientation: spec_rotate_x(t.orientation, sv, false), ..t }
    } else if is_key_active(e, Key::R) {
        Transform { orientation: spec_rotate_z(t.orientation, sv, true), ..t }
    } else if is_key_active(e, Key::F) {
        Transform { orientation: spec_rotate_z(t.orientation, sv, false), ..t }
    } else {
        t
    }
}

/// One entity's transform after the first `k` events of the frame.
pub open spec fn spec_transform_fold(
    t: Transform,
    sv: ShapeView,
    events: Seq<InputEvent>,
    k: int,
) -> Transform
    decreases k,
{
    if k <= 0 {
        t
    } else {
        spec_transform_event(spec_transform_fold(t, sv, events, k - 1), sv, events[k - 1])
    }
}

/// The transformations system: every entity with the transformable marker, a
/// transform and a shape folds the frame's events over its transform.
pub open spec fn spec_transformations_system(m: WorldModel) -> WorldModel {
    WorldModel {
        transforms: Seq::new(
            m.transforms.len(),
            |i: int|
                match (m.transformables[i], m.transforms[i], m.shapes[i]) {
                    (Some(_), Some(t), Some(sv)) => Some(
                        spec_transform_fold(t, sv, m.events, m.events.len() as int),
                    ),
                    _ => m.transforms[i],
                },
        ),
        ..m
    }
}

/// Edits transforms of transformable entities from key input.
pub struct TransformationsSystem;

impl TransformationsSystem {
    /// Composes the orientation with a quarter turn about the local x axis;
    /// the identity if the shape is unresolved.
    pub fn rotate_x(orientation: &Matrix3, shape: &Shape, positive: bool) -> (r: Matrix3)
        requires
            orientation.in_bound(VAL_BOUND as int),
        ensures
            r == spec_rotate_x(*orientation, shape.view(), positive),
            r.in_bound(VAL_BOUND as int),
    {
        match shape {
            Shape::Init { .. } => {
                if positive {
                    Matrix3 { cx: orientation.cx, cy: orientation.cz, cz: orientation.cy.neg() }
                } else {
                    Matrix3 { cx: orientation.cx, cy: orientation.cz.neg(), cz: orientation.cy }
                }
            },
            _ => Matrix3::identity(),
        }
    }

    /// Composes the orientation with a quarter turn about the local y axis;
    /// the identity if the shape is unresolved.
    pub fn rotate_y(orientation: &Matrix3, shape: &Shape, positive: bool) -> (r: Matrix3)
        requires
            orientation.in_bound(VAL_BOUND as int),
        ensures
            r == spec_rotate_y(*orientation, shape.view(), positive),
            r.in_bound(VAL_BOUND as int),
    {
        match shape {
            Shape::Init { .. } => {
                if positive {
                    Matrix3 { cx: orientation.cz.neg(), cy: orientation.cy, cz: orientation.cx }
                } else {
                    Matrix3 { cx: orientation.cz, cy: orientation.cy, cz: orientation.cx.neg() }
                }
            },
            _ => Matrix3::identity(),
        }
    }

    /// Composes the orientation with a quarter turn about the local z axis;
    /// the identity if the shape is unresolved.
    pub fn rotate_z(orientation: &Matrix3, shape: &Shape, positive: bool) -> (r: Matrix3)
        requires
            orientation.in_bound(VAL_BOUND as int),
        ensures
            r == spec_rotate_z(*orientation, shape.view(), positive),
            r.in_bound(VAL_BOUND as int),
    {
        match shape {
            Shape::Init { .. } => {
                if positive {
                    Matrix3 { cx: orientation.cy, cy: orientation.cx.neg(), cz: orientation.cz }
                } else {
                    Matrix3 { cx: orientation.cy.neg(), cy: orientation.cx, cz: orientation.cz }
                }
            },
            _ => Matrix3::identity(),
        }
    }

    /// Applies one event to one entity's transform, exactly as
    /// [`spec_transform_event`] says. The result stays well formed.
    fn apply_event(t: &Transform, shape: &Shape, e: InputEvent) -> (r: Transform)
        requires
            t.wf(),
        ensures
            r == spec_transform_event(*t, shape.view(), e),
            r.wf(),
    {
        if e == InputEvent::Key(Key::A, Action::Press) || e == InputEvent::Key(
            Key::A,
            Action::Repeat,
        ) {
            let z = add_clamped_i64(t.position.z, MOVEMENT_SPEED, COORD_BOUND);
            Transform { position: Vector3 { z, ..t.position }, ..*t }
        } else if e == InputEvent::Key(Key::D, Action::Press) || e == InputEvent::Key(
            Key::D,
            Action::Repeat,
        ) {
            let z = sub_clamped_i64(t.position.z, MOVEMENT_SPEED, COORD_BOUND);
            Transform { position: Vector3 { z, ..t.position }, ..*t }
        } else if e == InputEvent::Key(Key::W, Action::Press) || e == InputEvent::Key(
            Key::W,
            Action::Repeat,
        ) {
            let x = sub_clamped_i64(t.position.x, MOVEMENT_SPEED, COORD_BOUND);
            Transform { position: Vector3 { x, ..t.position }, ..*t }
        } else if e == InputEvent::Key(Key::S, Action::Press) || e == InputEvent::Key(
            Key::S,
            Action::Repeat,
        ) {
            let x = add_clamped_i64(t.position.x, MOVEMENT_SPEED, COORD_BOUND);
            Transform { position: Vector3 { x, ..t.position }, ..*t }
        } else if e == InputEvent::Key(Key::Equal, Action::Press) || e == InputEvent::Key(
            Key::Equal,
            Action::Repeat,
        ) {
            let scale = Vector3 {
                x: add_clamped_i64(t.scale.x, GROW_SPEED, VAL_BOUND),
                y: add_clamped_i64(t.scale.y, GROW_SPEED, VAL_BOUND),
                z: add_clamped_i64(t.scale.z, GROW_SPEED, VAL_BOUND),
            };
            Transform { scale, ..*t }
        } else if e == InputEvent::Key(Key::Minus, Action::Press) || e == InputEvent::Key(
            Key::Minus,
            Action::Repeat,
        ) {
            let scale = Vector3 {
                x: sub_clamped_i64(t.scale.x, GROW_SPEED, VAL_BOUND),
                y: sub_clamped_i64(t.scale.y, GROW_SPEED, VAL_BOUND),
                z: sub_clamped_i64(t.scale.z, GROW_SPEED, VAL_BOUND),
            };
            Transform { scale, ..*t }
        } else if e == InputEvent::Key(Key::Q, Action::Press) || e == InputEvent::Key(
            Key::Q,
            Action::Repeat,
        ) {
            Transform { orientation: Self::rotate_y(&t.orientation, shape, true), ..*t }
        } else if e == InputEvent::Key(Key::E, Action::Press) || e == InputEvent::Key(
            Key::E,
            Action::Repeat,
        ) {
            Transform { orientation: Self::rotate_y(&t.orientation, shape, false), ..*t }
        } else if e == InputEvent::Key(Key::Z, Action::Press) || e == InputEvent::Key(
            Key::Z,
            Action::Repeat,
        ) {
            Transform { orientation: Self::rotate_x(&t.orientation, shape, true), ..*t }
        } else if e == InputEvent::Key(Key::X, Action::Press) || e == InputEvent::Key(
            Key::X,
            Action::Repeat,
        ) {
            Transform { orientation: Self::rotate_x(&t.orientation, shape, false), ..*t }
        } else if e == InputEvent::Key(Key::R, Action::Press) || e == InputEvent::Key(
            Key::R,
            Action::Repeat,
        ) {
            Transform { orientation: Self::rotate_z(&t.orientation, shape, true), ..*t }
        } else if e == InputEvent::Key(Key::F, Action::Press) || e == InputEvent::Key(
            Key::F,
            Action::Repeat,
        ) {
            Transform { orientation: Self::rotate_z(&t.orientation, shape, false), ..*t }
        } else {
            *t
        }
    }

    /// Folds the frame's events over every transformable entity's transform.
    pub fn run(&self, w: &mut World)
        requires
            old(w).wf(),
        ensures
            final(w).wf(),
            final(w).model() == spec_transformations_system(old(w).model()),
    {
        let ghost m = old(w).model();
        let n = w.transforms.len();
        let num_events = w.events.0.len();
        let mut i: usize = 0;
        while i < n
            invariant
                old(w).wf(),
                m == old(w).model(),
                n == m.transforms.len(),
                num_events == m.events.len(),
                i <= n,
                w.model() == (WorldModel { transforms: w.model().transforms, ..m }),
                w.transforms@.len() == n,
                forall|j: int| i <= j < n ==> w.transforms@[j] == m.transforms[j],
                forall|j: int|
                    0 <= j < i ==> w.transforms@[j] == spec_transformations_system(
                        m,
                    ).transforms[j],
                forall|j: int|
                    0 <= j < n ==> (#[trigger] w.transforms@[j] matches Some(c) ==> c.wf()),
            decreases n - i,
        {
            if w.transformables[i].is_some() && w.transforms[i].is_some() && w.shapes[i].is_some() {
                let ghost sv = m.shapes[i as int]->Some_0;
                let mut t = w.transforms[i].unwrap();
                proof {
                    assert(m.transforms[i as int] matches Some(c) ==> c.wf());
                }
                let mut k: usize = 0;
                while k < num_events
                    invariant
                        old(w).wf(),
                        m == old(w).model(),
                        num_events == m.events.len(),
                        k <= num_events,
                        i < n,
                        n == m.transforms.len(),
                        w.model() == (WorldModel { transforms: w.model().transforms, ..m }),
                        w.transforms@.len() == n,
                        w.shapes@[i as int] is Some,
                        m.shapes[i as int] == Some(w.shapes@[i as int]->Some_0.view()),
                        sv == m.shapes[i as int]->Some_0,
                        m.transforms[i as int] is Some,
                        t.wf(),
                        t == spec_transform_fold(
                            m.transforms[i as int]->Some_0,
                            sv,
                            m.events,
                            k as int,
                        ),
                        forall|j: int| i <= j < n ==> w.transforms@[j] == m.transforms[j],
                        forall|j: int|
                            0 <= j < i ==> w.transforms@[j] == spec_transformations_system(
                                m,
                            ).transforms[j],
                    decreases num_events - k,
                {
                    let e = w.events.0[k];
                    match &w.shapes[i] {
                        Some(shape) => {
                            t = Self::apply_event(&t, shape, e);
                        },
                        None => {},
                    }
                    k = k + 1;
                }
                w.transforms.set(i, Some(t));
            }
            i = i + 1;
        }
        proof {
            let target = spec_transformations_system(m);
            assert(w.model().transforms =~= target.transforms);
            assert(w.model() =~= target);
        }
    }
}

} // verus!
