//! Thruster control: sustained key input accelerates, decelerates or zeroes
//! velocity.
//!
//! For every event of the frame, in order: left shift (pressed or held) adds
//! each thruster's power to its entity's velocity, left control subtracts it,
//! and the N key zeroes the velocity outright. Velocities saturate at the
//! velocity range.

use vstd::prelude::*;
use vstd::pervasive::VecAdditionalExecFns;

use crate::components::{Physics, Thruster};
use crate::events::{is_key_active, Action, InputEvent, Key};
use crate::math::{spec_add_clamped, spec_sub_clamped, Vector3, VAL_BOUND};
use crate::model::WorldModel;
use crate::world::World;

verus! {

/// What one event does to the whole physics storage: entities holding both a
/// physics and a thruster component thrust together; any other event leaves
/// the storage alone.
pub open spec fn spec_thrust_event(
    physics: Seq<Option<Physics>>,
    thrusters: Seq<Option<Thruster>>,
    e: InputEvent,
) -> Seq<Option<Physics>> {
    if is_key_active(e, Key::LeftShift) {
        Seq::new(
            physics.len(),
            |i: int|
                match (physics[i], thrusters[i]) {
                    (Some(p), Some(t)) => Some(
                        Physics {
                            velocity: spec_add_clamped(p.velocity, t.power, VAL_BOUND as int),
                        },
                    ),
                    _ => physics[i],
                },
        )
    } else if is_key_active(e, Key::LeftControl) {
        Seq::new(
            physics.len(),
            |i: int|
                match (physics[i], thrusters[i]) {
                    (Some(p), Some(t)) => Some(
                        Physics {
                            velocity: spec_sub_clamped(p.velocity, t.power, VAL_BOUND as int),
                        },
                    ),
                    _ => physics[i],
                },
        )
    } else if is_key_active(e, Key::N) {
        Seq::new(
            physics.len(),
            |i: int|
                match (physics[i], thrusters[i]) {
                    (Some(_), Some(_)) => Some(Physics { velocity: Vector3::spec_zero() }),
                    _ => physics[i],
                },
        )
    } else {
        physics
    }
}

/// The physics storage after the first `k` events of the frame.
pub open spec fn spec_thrust_fold(
    physics: Seq<Option<Physics>>,
    thrusters: Seq<Option<Thruster>>,
    events: Seq<InputEvent>,
    k: int,
) -> Seq<Option<Physics>>
    decreases k,
{
    if k <= 0 {
        physics
    } else {
        spec_thrust_event(spec_thrust_fold(physics, thrusters, events, k - 1), thrusters, events[k - 1])
    }
}

/// The thruster system: the physics storage folds over the frame's events;
/// everything else is untouched.
pub open spec fn spec_thruster_system(m: WorldModel) -> WorldModel {
    WorldModel {
        physics: spec_thrust_fold(m.physics, m.thrusters, m.events, m.events.len() as int),
        ..m
    }
}

/// Applies thrust input to every entity with a physics and thruster pair.
pub struct ThrusterSystem;

impl ThrusterSystem {
    /// One thrusting sweep over all entities: `mode` 0 adds the power, 1
    /// subtracts it, 2 zeroes the velocity.
    fn sweep(w: &mut World, mode: u8, Ghost(e): Ghost<InputEvent>)
        requires
            old(w).wf(),
            mode == 0 ==> is_key_active(e, Key::LeftShift),
            mode == 1 ==> !is_key_active(e, Key::LeftShift) && is_key_active(e, Key::LeftControl),
            mode == 2 ==> !is_key_active(e, Key::LeftShift) && !is_key_active(e, Key::LeftControl)
                && is_key_active(e, Key::N),
            mode <= 2,
        ensures
            final(w).wf(),
            final(w).model() == (WorldModel {
                physics: spec_thrust_event(
                    old(w).model().physics,
                    old(w).model().thrusters,
                    e,
                ),
                ..old(w).model()
            }),
    {
        let ghost m = old(w).model();
        let n = w.physics.len();
        let mut i: usize = 0;
        while i < n
            invariant
                old(w).wf(),
                m == old(w).model(),
                n == m.physics.len(),
                i <= n,
                mode == 0 ==> is_key_active(e, Key::LeftShift),
                mode == 1 ==> !is_key_active(e, Key::LeftShift) && is_key_active(
                    e,
                    Key::LeftControl,
                ),
                mode == 2 ==> !is_key_active(e, Key::LeftShift) && !is_key_active(
                    e,
                    Key::LeftControl,
                ) && is_key_active(e, Key::N),
                mode <= 2,
                w.model() == (WorldModel { physics: w.model().physics, ..m }),
                w.physics@.len() == n,
                forall|j: int| i <= j < n ==> w.physics@[j] == m.physics[j],
                forall|j: int|
                    0 <= j < i ==> w.physics@[j] == spec_thrust_event(
                        m.physics,
                        m.thrusters,
                        e,
                    )[j],
            decreases n - i,
        {
            if w.physics[i].is_some() && w.thrusters[i].is_some() {
                let p = w.physics[i].unwrap();
                let t = w.thrusters[i].unwrap();
                if mode == 0 {
                    let velocity = p.velocity.add_clamped(&t.power, VAL_BOUND);
                    w.physics.set(i, Some(Physics { velocity }));
                } else if mode == 1 {
                    let velocity = p.velocity.sub_clamped(&t.power, VAL_BOUND);
                    w.physics.set(i, Some(Physics { velocity }));
                } else {
                    w.physics.set(i, Some(Physics { velocity: Vector3::zero() }));
                }
            }
            i = i + 1;
        }
        proof {
            assert(w.model().physics =~= spec_thrust_event(m.physics, m.thrusters, e));
            assert(w.model() =~= (WorldModel {
                physics: spec_thrust_event(m.physics, m.thrusters, e),
                ..m
            }));
        }
    }

    /// Folds the frame's events, in order, over the physics storage.
    pub fn run(&self, w: &mut World)
        requires
            old(w).wf(),
        ensures
            final(w).wf(),
            final(w).model() == spec_thruster_system(old(w).model()),
    {
        let ghost m = old(w).model();
        let num_events = w.events.0.len();
        let mut k: usize = 0;
        while k < num_events
            invariant
                old(w).wf(),
                w.wf(),
                m == old(w).model(),
                num_events == m.events.len(),
                k <= num_events,
                w.model() == (WorldModel {
                    physics: spec_thrust_fold(m.physics, m.thrusters, m.events, k as int),
                    ..m
                }),
            decreases num_events - k,
        {
            let e = w.events.0[k];
            if e == InputEvent::Key(Key::LeftShift, Action::Press) || e == InputEvent::Key(
                Key::LeftShift,
                Action::Repeat,
            ) {
                Self::sweep(w, 0, Ghost(e));
            } else if e == InputEvent::Key(Key::LeftControl, Action::Press) || e == InputEvent::Key(
                Key::LeftControl,
                Action::Repeat,
            ) {
                Self::sweep(w, 1, Ghost(e));
            } else if e == InputEvent::Key(Key::N, Action::Press) || e == InputEvent::Key(
                Key::N,
                Action::Repeat,
            ) {
                Self::sweep(w, 2, Ghost(e));
            } else {
                proof {
                    assert(spec_thrust_event(
                        spec_thrust_fold(m.physics, m.thrusters, m.events, k as int),
                        m.thrusters,
                        e,
                    ) == spec_thrust_fold(m.physics, m.thrusters, m.events, k as int));
                }
            }
            k = k + 1;
        }
        proof {
            assert(w.model() =~= spec_thruster_system(m));
        }
    }
}

} // verus!
