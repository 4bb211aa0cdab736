//! Camera control driven by key input.
//!
//! Every entity holding a camera and a shape folds the frame's events over
//! its camera, in order: page up/down zoom, H/J/K/L move the offset along the
//! world axes, and the left/right arrows swing the offset a quarter turn
//! around the world y axis — only once the entity's shape is resolved, since
//! the swing axis is derived from the entity's bounding box. Zoom and offset
//! saturate at the coordinate range.

use vstd::prelude::*;
use vstd::pervasive::VecAdditionalExecFns;

use crate::components::{Camera, Shape, ShapeView};
use crate::consts::{MOVE_SENSITIVITY, ZOOM_LEVEL_SENSITIVITY};
use crate::events::{is_key_active, Action, InputEvent, Key};
use crate::math::{add_clamped_i64, clamp_val, spec_neg, sub_clamped_i64, Vector3, COORD_BOUND};
use crate::model::WorldModel;
use crate::world::World;

verus! {

/// A vector swung a quarter turn around the world y axis; `positive` picks
/// the turning sense.
pub open spec fn spec_swing_y(v: Vector3, positive: bool) -> Vector3 {
    if positive {
        Vector3 { x: v.z, y: v.y, z: spec_neg(v).x }
    } else {
        Vector3 { x: spec_neg(v).z, y: v.y, z: v.x }
    }
}

/// What one event does to one entity's camera.
pub open spec fn spec_camera_event(c: Camera, sv: ShapeView, e: InputEvent) -> Camera {
    if is_key_active(e, Key::PageUp) {
        Camera {
            zoom_level: clamp_val(c.zoom_level - ZOOM_LEVEL_SENSITIVITY, COORD_BOUND as int) as i64,
            ..c
        }
    } else if is_key_active(e, Key::PageDown) {
        Camera {
            zoom_level: clamp_val(c.zoom_level + ZOOM_LEVEL_SENSITIVITY, COORD_BOUND as int) as i64,
            ..c
        }
    } else if is_key_active(e, Key::H) {
        Camera {
            offset: Vector3 {
                z: clamp_val(c.offset.z + MOVE_SENSITIVITY, COORD_BOUND as int) as i64,
                ..c.offset
            },
            ..c
        }
    } else if is_key_active(e, Key::J) {
        Camera {
            offset: Vector3 {
                y: clamp_val(c.offset.y - MOVE_SENSITIVITY, COORD_BOUND as int) as i64,
                ..c.offset
            },
            ..c
        }
    } else if is_key_active(e, Key::K) {
        Camera {
            offset: Vector3 {
                y: clamp_val(c.offset.y + MOVE_SENSITIVITY, COORD_BOUND as int) as i64,
                ..c.offset
            },
            ..c
        }
    } else if is_key_active(e, Key::L) {
        Camera {
            offset: Vector3 {
                z: clamp_val(c.offset.z - MOVE_SENSITIVITY, COORD_BOUND as int) as i64,
                ..c.offset
            },
            ..c
        }
    } else if is_key_active(e, Key::Left) {
        if sv is Init {
            Camera { offset: spec_swing_y(c.offset, false), ..c }
        } else {
            c
        }
    } else if is_key_active(e, Key::Right) {
        if sv is Init {
            Camera { offset: spec_swing_y(c.offset, true), ..c }
        } else {
            c
        }
    } else {
        c
    }
}

/// One entity's camera after the first `k` events of the frame.
pub open spec fn spec_camera_fold(
    c: Camera,
    sv: ShapeView,
    events: Seq<InputEvent>,
    k: int,
) -> Camera
    decreases k,
{
    if k <= 0 {
        c
    } else {
        spec_camera_event(spec_camera_fold(c, sv, events, k - 1), sv, events[k - 1])
    }
}

/// The camera system: every entity with a camera and a shape folds the
/// frame's events over its camera; everything else is untouched.
pub open spec fn spec_camera_system(m: WorldModel) -> WorldModel {
    WorldModel {
        cameras: Seq::new(
            m.cameras.len(),
            |i: int|
                match (m.cameras[i], m.shapes[i]) {
                    (Some(c), Some(sv)) => Some(
                        spec_camera_fold(c, sv, m.events, m.events.len() as int),
                    ),
                    _ => m.cameras[i],
                },
        ),
        ..m
    }
}

/// Moves, zooms and swings cameras from key input.
pub struct CameraSystem;

impl CameraSystem {
    /// Applies one event to one entity's camera, exactly as
    /// [`spec_camera_event`] says. The result stays well formed.
    fn apply_event(c: &Camera, shape: &Shape, e: InputEvent) -> (r: Camera)
        requires
            c.wf(),
        ensures
            r == spec_camera_event(*c, shape.view(), e),
            r.wf(),
    {
        if e == InputEvent::Key(Key::PageUp, Action::Press) || e == InputEvent::Key(
            Key::PageUp,
            Action::Repeat,
        ) {
            let zoom_level = sub_clamped_i64(c.zoom_level, ZOOM_LEVEL_SENSITIVITY, COORD_BOUND);
            Camera { zoom_level, ..*c }
        } else if e == InputEvent::Key(Key::PageDown, Action::Press) || e == InputEvent::Key(
            Key::PageDown,
            Action::Repeat,
        ) {
            let zoom_level = add_clamped_i64(c.zoom_level, ZOOM_LEVEL_SENSITIVITY, COORD_BOUND);
            Camera { zoom_level, ..*c }
        } else if e == InputEvent::Key(Key::H, Action::Press) || e == InputEvent::Key(
            Key::H,
            Action::Repeat,
        ) {
            let z = add_clamped_i64(c.offset.z, MOVE_SENSITIVITY, COORD_BOUND);
            Camera { offset: Vector3 { z, ..c.offset }, ..*c }
        } else if e == InputEvent::Key(Key::J, Action::Press) || e == InputEvent::Key(
            Key::J,
            Action::Repeat,
        ) {
            let y = sub_clamped_i64(c.offset.y, MOVE_SENSITIVITY, COORD_BOUND);
            Camera { offset: Vector3 { y, ..c.offset }, ..*c }
        } else if e == InputEvent::Key(Key::K, Action::Press) || e == InputEvent::Key(
            Key::K,
            Action::Repeat,
        ) {
            let y = add_clamped_i64(c.offset.y, MOVE_SENSITIVITY, COORD_BOUND);
            Camera { offset: Vector3 { y, ..c.offset }, ..*c }
        } else if e == InputEvent::Key(Key::L, Action::Press) || e == InputEvent::Key(
            Key::L,
            Action::Repeat,
        ) {
            let z = sub_clamped_i64(c.offset.z, MOVE_SENSITIVITY, COORD_BOUND);
            Camera { offset: Vector3 { z, ..c.offset }, ..*c }
        } else if e == InputEvent::Key(Key::Left, Action::Press) || e == InputEvent::Key(
            Key::Left,
            Action::Repeat,
        ) {
            match shape {
                Shape::Init { .. } => {
                    let offset = Vector3 { x: -c.offset.z, y: c.offset.y, z: c.offset.x };
                    Camera { offset, ..*c }
                },
                _ => *c,
            }
        } else if e == InputEvent::Key(Key::Right, Action::Press) || e == InputEvent::Key(
            Key::Right,
            Action::Repeat,
        ) {
            match shape {
                Shape::Init { .. } => {
                    let offset = Vector3 { x: c.offset.z, y: c.offset.y, z: -c.offset.x };
                    Camera { offset, ..*c }
                },
                _ => *c,
            }
        } else {
            *c
        }
    }

    /// Folds the frame's events over every camera.
    pub fn run(&self, w: &mut World)
        requires
            old(w).wf(),
        ensures
            final(w).wf(),
            final(w).model() == spec_camera_system(old(w).model()),
    {
        let ghost m = old(w).model();
        let n = w.cameras.len();
        let num_events = w.events.0.len();
        let mut i: usize = 0;
        while i < n
            invariant
                old(w).wf(),
                m == old(w).model(),
                n == m.cameras.len(),
                num_events == m.events.len(),
                i <= n,
                w.model() == (WorldModel { cameras: w.model().cameras, ..m }),
                w.cameras@.len() == n,
                forall|j: int| i <= j < n ==> w.cameras@[j] == m.cameras[j],
                forall|j: int| 0 <= j < i ==> w.cameras@[j] == spec_camera_system(m).cameras[j],
                forall|j: int|
                    0 <= j < n ==> (#[trigger] w.cameras@[j] matches Some(c) ==> c.wf()),
            decreases n - i,
        {
            if w.cameras[i].is_some() && w.shapes[i].is_some() {
                let ghost sv = m.shapes[i as int]->Some_0;
                let mut c = w.cameras[i].unwrap();
                proof {
                    assert(m.cameras[i as int] matches Some(k) ==> k.wf());
                }
                let mut k: usize = 0;
                while k < num_events
                    invariant
                        old(w).wf(),
                        m == old(w).model(),
                        num_events == m.events.len(),
                        k <= num_events,
                        i < n,
                        n == m.cameras.len(),
                        w.model() == (WorldModel { cameras: w.model().cameras, ..m }),
                        w.cameras@.len() == n,
                        w.shapes@[i as int] is Some,
                        m.shapes[i as int] == Some(w.shapes@[i as int]->Some_0.view()),
                        sv == m.shapes[i as int]->Some_0,
                        m.cameras[i as int] is Some,
                        c.wf(),
                        c == spec_camera_fold(m.cameras[i as int]->Some_0, sv, m.events, k as int),
                        forall|j: int| i <= j < n ==> w.cameras@[j] == m.cameras[j],
                        forall|j: int|
                            0 <= j < i ==> w.cameras@[j] == spec_camera_system(m).cameras[j],
                        forall|j: int|
                            0 <= j < n ==> (#[trigger] w.cameras@[j] matches Some(c) ==> c.wf()),
                    decreases num_events - k,
                {
                    let e = w.events.0[k];
                    match &w.shapes[i] {
                        Some(shape) => {
                            c = Self::apply_event(&c, shape, e);
                        },
                        None => {},
                    }
                    k = k + 1;
                }
                w.cameras.set(i, Some(c));
            }
            i = i + 1;
        }
        proof {
            let target = spec_camera_system(m);
            assert(w.model().cameras =~= target.cameras);
            assert(w.model() =~= target);
        }
    }
}

} // verus!
