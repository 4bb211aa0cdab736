//! Pulsating scale animation.
//!
//! Each frame a pulsating entity grows or shrinks its scale by the
//! component's per-axis speed along the current direction. Once any axis
//! would pass the configured extreme, the scale is clamped exactly onto that
//! extreme and the direction flips — a deterministic bounce between the two
//! configured sizes, never an overshoot.

use vstd::prelude::*;
use vstd::pervasive::VecAdditionalExecFns;

use crate::components::{Pulsate, Transform};
use crate::math::Vector3;
use crate::model::WorldModel;
use crate::world::World;

verus! {

/// One pulsate tick of a single entity. Growing: if any axis would exceed
/// the maximum, the scale lands exactly on the maximum and the direction
/// flips to shrinking; otherwise the speed is added. Shrinking is the mirror
/// image against the minimum.
pub open spec fn spec_pulsate_update(t: Transform, p: Pulsate) -> (Transform, Pulsate) {
    if p.current_direction {
        if t.scale.x + p.speed.x > p.max_scale.x || t.scale.y + p.speed.y > p.max_scale.y
            || t.scale.z + p.speed.z > p.max_scale.z {
            (
                Transform { scale: p.max_scale, ..t },
                Pulsate { current_direction: false, ..p },
            )
        } else {
            (
                Transform {
                    scale: Vector3 {
                        x: (t.scale.x + p.speed.x) as i64,
                        y: (t.scale.y + p.speed.y) as i64,
                        z: (t.scale.z + p.speed.z) as i64,
                    },
                    ..t
                },
                p,
            )
        }
    } else {
        if t.scale.x - p.speed.x < p.min_scale.x || t.scale.y - p.speed.y < p.min_scale.y
            || t.scale.z - p.speed.z < p.min_scale.z {
            (
                Transform { scale: p.min_scale, ..t },
                Pulsate { current_direction: true, ..p },
            )
        } else {
            (
                Transform {
                    scale: Vector3 {
                        x: (t.scale.x - p.speed.x) as i64,
                        y: (t.scale.y - p.speed.y) as i64,
                        z: (t.scale.z - p.speed.z) as i64,
                    },
                    ..t
                },
                p,
            )
        }
    }
}

/// The pulsate system: every entity holding both a pulsate component and a
/// transform takes one tick; everything else is untouched.
pub open spec fn spec_pulsate_system(m: WorldModel) -> WorldModel {
    WorldModel {
        transforms: Seq::new(
            m.transforms.len(),
            |i: int|
                match (m.transforms[i], m.pulsates[i]) {
                    (Some(t), Some(p)) => Some(spec_pulsate_update(t, p).0),
                    _ => m.transforms[i],
                },
        ),
        pulsates: Seq::new(
            m.pulsates.len(),
            |i: int|
                match (m.transforms[i], m.pulsates[i]) {
                    (Some(t), Some(p)) => Some(spec_pulsate_update(t, p).1),
                    _ => m.pulsates[i],
                },
        ),
        ..m
    }
}

/// Bounces every pulsating entity's scale between its configured extremes.
pub struct PulsateSystem;

impl PulsateSystem {
    pub fn run(&self, w: &mut World)
        requires
            old(w).wf(),
        ensures
            final(w).wf(),
            final(w).model() == spec_pulsate_system(old(w).model()),
    {
        let ghost m = old(w).model();
        let n = w.transforms.len();
        let mut i: usize = 0;
        while i < n
            invariant
                old(w).wf(),
                m == old(w).model(),
                n == m.n(),
                i <= n,
                w.model() == (WorldModel {
                    transforms: w.model().transforms,
                    pulsates: w.model().pulsates,
                    ..m
                }),
                w.transforms@.len() == n,
                w.pulsates@.len() == n,
                forall|j: int| i <= j < n ==> w.transforms@[j] == m.transforms[j],
                forall|j: int| i <= j < n ==> w.pulsates@[j] == m.pulsates[j],
                forall|j: int|
                    0 <= j < i ==> w.transforms@[j] == spec_pulsate_system(m).transforms[j],
                forall|j: int| 0 <= j < i ==> w.pulsates@[j] == spec_pulsate_system(m).pulsates[j],
            decreases n - i,
        {
            if w.transforms[i].is_some() && w.pulsates[i].is_some() {
                let t = w.transforms[i].unwrap();
                let mut p = w.pulsates[i].unwrap();
                proof {
                    assert(m.transforms[i as int] matches Some(c) ==> c.wf());
                    assert(m.pulsates[i as int] matches Some(c) ==> c.wf());
                    assert(t.wf() && p.wf());
                }
                if p.current_direction {
                    // Growing; land exactly on the maximum when a step would pass it.
                    if t.scale.x + p.speed.x > p.max_scale.x || t.scale.y + p.speed.y
                        > p.max_scale.y || t.scale.z + p.speed.z > p.max_scale.z {
                        w.transforms.set(i, Some(Transform { scale: p.max_scale, ..t }));
                        p.current_direction = false;
                        w.pulsates.set(i, Some(p));
                    } else {
                        let scale = Vector3 {
                            x: t.scale.x + p.speed.x,
                            y: t.scale.y + p.speed.y,
                            z: t.scale.z + p.speed.z,
                        };
                        w.transforms.set(i, Some(Transform { scale, ..t }));
                    }
                } else {
                    // Shrinking; land exactly on the minimum when a step would pass it.
                    if t.scale.x - p.speed.x < p.min_scale.x || t.scale.y - p.speed.y
                        < p.min_scale.y || t.scale.z - p.speed.z < p.min_scale.z {
                        w.transforms.set(i, Some(Transform { scale: p.min_scale, ..t }));
                        p.current_direction = true;
                        w.pulsates.set(i, Some(p));
                    } else {
                        let scale = Vector3 {
                            x: t.scale.x - p.speed.x,
                            y: t.scale.y - p.speed.y,
                            z: t.scale.z - p.speed.z,
                        };
                        w.transforms.set(i, Some(Transform { scale, ..t }));
                    }
                }
            }
            i = i + 1;
        }
        proof {
            let target = spec_pulsate_system(m);
            assert(w.model().transforms =~= target.transforms);
            assert(w.model().pulsates =~= target.pulsates);
            assert(w.model() =~= target);
        }
    }
}

} // verus!
