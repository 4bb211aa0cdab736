//! Damage resolution over the collision set.
//!
//! For every colliding pair both directions are evaluated independently and
//! unconditionally: each side that carries damage whose dealer is not itself
//! attacks the other side. A victim with health loses the attacker's damage
//! magnitude (saturating at the health range) and is scheduled for deletion
//! once at or below zero; a victim without health is unharmed. An attacker
//! flagged to despawn on impact schedules itself. All deletions are collected
//! while the set is scanned and buffered only after the scan, so no entity is
//! invalidated mid-scan; they take effect at the next maintenance point.

use vstd::prelude::*;
use vstd::pervasive::VecAdditionalExecFns;

use crate::components::{Damage, Health};
use crate::math::{clamp_val, sub_clamped_i64, COORD_BOUND};
use crate::model::WorldModel;
use crate::world::World;

verus! {

/// Health storage and deletion schedule as the damage pass reshapes them.
pub ghost struct DamageOutcome {
    pub healths: Seq<Option<Health>>,
    pub kills: Seq<usize>,
}

/// One attack direction: `att` attacks `vic`, unless `att` carries no damage
/// or is its own damage's dealer (no self-damage). The victim's health, if
/// any, drops by the damage magnitude; the victim is scheduled at zero or
/// below, and the attacker is scheduled if it despawns on impact.
pub open spec fn spec_damage_direction(
    damages: Seq<Option<Damage>>,
    att: usize,
    vic: usize,
    st: DamageOutcome,
) -> DamageOutcome {
    if att < damages.len() && damages[att as int] is Some && damages[
        att as int
    ]->Some_0.damage_dealer != att {
        let d = damages[att as int]->Some_0;
        let hit = if vic < st.healths.len() && st.healths[vic as int] is Some {
            let h = clamp_val(
                st.healths[vic as int]->Some_0.health - d.damage,
                COORD_BOUND as int,
            ) as i64;
            DamageOutcome {
                healths: st.healths.update(vic as int, Some(Health { health: h })),
                kills: if h <= 0 {
                    st.kills.push(vic)
                } else {
                    st.kills
                },
            }
        } else {
            st
        };
        if d.despawn_entity_on_impact {
            DamageOutcome { kills: hit.kills.push(att), ..hit }
        } else {
            hit
        }
    } else {
        st
    }
}

/// Both directions of one colliding pair, first side then second.
pub open spec fn spec_damage_pair(
    damages: Seq<Option<Damage>>,
    pair: (usize, usize),
    st: DamageOutcome,
) -> DamageOutcome {
    spec_damage_direction(
        damages,
        pair.1,
        pair.0,
        spec_damage_direction(damages, pair.0, pair.1, st),
    )
}

/// The whole pass: every pair of the collision set, in order.
pub open spec fn spec_damage_pass(
    damages: Seq<Option<Damage>>,
    pairs: Seq<(usize, usize)>,
    st: DamageOutcome,
) -> DamageOutcome
    decreases pairs.len(),
{
    if pairs.len() == 0 {
        st
    } else {
        spec_damage_pass(damages, pairs.drop_first(), spec_damage_pair(damages, pairs[0], st))
    }
}

/// Appending a pair to the scan processes it last.
pub proof fn lemma_damage_pass_push(
    damages: Seq<Option<Damage>>,
    pairs: Seq<(usize, usize)>,
    pair: (usize, usize),
    st: DamageOutcome,
)
    ensures
        spec_damage_pass(damages, pairs.push(pair), st) == spec_damage_pair(
            damages,
            pair,
            spec_damage_pass(damages, pairs, st),
        ),
    decreases pairs.len(),
{
    reveal_with_fuel(spec_damage_pass, 2);
    if pairs.len() == 0 {
        assert(pairs.push(pair).drop_first() =~= Seq::empty());
        assert(pairs.push(pair)[0] == pair);
    } else {
        assert(pairs.push(pair).drop_first() =~= pairs.drop_first().push(pair));
        assert(pairs.push(pair)[0] == pairs[0]);
        lemma_damage_pass_push(
            damages,
            pairs.drop_first(),
            pair,
            spec_damage_pair(damages, pairs[0], st),
        );
    }
}

/// The damage system: healths and the deletion buffer move to the pass's
/// outcome; everything else is untouched.
pub open spec fn spec_damage_system(m: WorldModel) -> WorldModel {
    let out = spec_damage_pass(
        m.damages,
        m.collisions,
        DamageOutcome { healths: m.healths, kills: Seq::empty() },
    );
    WorldModel {
        healths: out.healths,
        pending_deletes: m.pending_deletes + out.kills,
        ..m
    }
}

/// Resolves health loss and deletion scheduling for every colliding pair.
pub struct DamageSystem;

impl DamageSystem {
    /// One attack direction, exactly as [`spec_damage_direction`] says.
    fn apply_direction(w: &mut World, att: usize, vic: usize, to_kill: &mut Vec<usize>)
        requires
            old(w).wf(),
        ensures
            final(w).wf(),
            final(w).model() == (WorldModel {
                healths: final(w).model().healths,
                ..old(w).model()
            }),
            (DamageOutcome { healths: final(w).model().healths, kills: final(to_kill)@ })
                == spec_damage_direction(
                old(w).model().damages,
                att,
                vic,
                DamageOutcome { healths: old(w).model().healths, kills: old(to_kill)@ },
            ),
    {
        let ghost st0 = DamageOutcome { healths: old(w).model().healths, kills: old(to_kill)@ };
        if att < w.damages.len() {
            if let Some(d) = w.damages[att] {
                if d.damage_dealer != att {
                    if vic < w.healths.len() {
                        if let Some(h) = w.healths[vic] {
                            let new_health = sub_clamped_i64(h.health, d.damage, COORD_BOUND);
                            w.healths.set(vic, Some(Health { health: new_health }));
                            if new_health <= 0 {
                                to_kill.push(vic);
                            }
                        }
                    }
                    if d.despawn_entity_on_impact {
                        to_kill.push(att);
                    }
                }
            }
        }
        proof {
            assert(w.model() =~= (WorldModel { healths: w.model().healths, ..old(w).model() }));
        }
    }

    /// Scans the collision set, applying both directions of every pair, then
    /// buffers all scheduled deletions for the maintenance point.
    pub fn run(&self, w: &mut World)
        requires
            old(w).wf(),
        ensures
            final(w).wf(),
            final(w).model() == spec_damage_system(old(w).model()),
    {
        let ghost m = old(w).model();
        let mut to_kill: Vec<usize> = Vec::new();
        let num_pairs = w.collisions.0.len();
        let mut k: usize = 0;
        while k < num_pairs
            invariant
                old(w).wf(),
                w.wf(),
                m == old(w).model(),
                num_pairs == m.collisions.len(),
                k <= num_pairs,
                w.model() == (WorldModel { healths: w.model().healths, ..m }),
                (DamageOutcome { healths: w.model().healths, kills: to_kill@ })
                    == spec_damage_pass(
                    m.damages,
                    m.collisions.take(k as int),
                    DamageOutcome { healths: m.healths, kills: Seq::empty() },
                ),
            decreases num_pairs - k,
        {
            let (a, b) = w.collisions.0[k];
            proof {
                assert(m.collisions.take(k + 1) =~= m.collisions.take(k as int).push(
                    m.collisions[k as int],
                ));
                lemma_damage_pass_push(
                    m.damages,
                    m.collisions.take(k as int),
                    m.collisions[k as int],
                    DamageOutcome { healths: m.healths, kills: Seq::empty() },
                );
            }
            Self::apply_direction(w, a, b, &mut to_kill);
            Self::apply_direction(w, b, a, &mut to_kill);
            k = k + 1;
        }
        proof {
            assert(m.collisions.take(num_pairs as int) =~= m.collisions);
        }
        let mut idx: usize = 0;
        let num_kills = to_kill.len();
        while idx < num_kills
            invariant
                old(w).wf(),
                w.wf(),
                m == old(w).model(),
                idx <= num_kills,
                num_kills == to_kill@.len(),
                w.model() == (WorldModel {
                    healths: w.model().healths,
                    pending_deletes: m.pending_deletes + to_kill@.take(idx as int),
                    ..m
                }),
                (DamageOutcome { healths: w.model().healths, kills: to_kill@ })
                    == spec_damage_pass(
                    m.damages,
                    m.collisions,
                    DamageOutcome { healths: m.healths, kills: Seq::empty() },
                ),
            decreases num_kills - idx,
        {
            let id = to_kill[idx];
            w.pending_deletes.push(id);
            proof {
                assert(m.pending_deletes + to_kill@.take(idx + 1) =~= (m.pending_deletes
                    + to_kill@.take(idx as int)).push(to_kill@[idx as int]));
            }
            idx = idx + 1;
        }
        proof {
            assert(m.collisions.take(num_pairs as int) =~= m.collisions);
            assert(to_kill@.take(num_kills as int) =~= to_kill@);
            assert(w.model() =~= spec_damage_system(m));
        }
    }
}

} // verus!
