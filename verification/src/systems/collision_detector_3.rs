//! All-pairs axis-aligned bounding-box collision detection.
//!
//! Every frame the collision set is recomputed from scratch: for every pair
//! of distinct entities that both carry a resolved shape, a collider and a
//! transform, the world-space boxes are compared axis by axis, bounds
//! inclusive. The overlap test is symmetric (see
//! [`crate::laws::lemma_overlap_symmetric`]), so each unordered pair is
//! visited once and recorded once, in canonical order: smaller id first.
//! Entities whose shape is still unresolved are skipped entirely.

use vstd::prelude::*;

use crate::components::Transform;
use crate::data::{aabb_overlap, axis_max, axis_min, AABB};
use crate::math::{lemma_mul_bound, COORD_BOUND, VAL_BOUND};
use crate::model::WorldModel;
use crate::world::World;

verus! {

/// The entity takes part in collision detection: it has a transform, a
/// collider, and a shape that has reached its resolved state.
pub open spec fn collidable(m: WorldModel, i: int) -> bool {
    &&& 0 <= i < m.n()
    &&& m.transforms[i] is Some
    &&& m.colliders[i] is Some
    &&& match m.shapes[i] {
        Some(sv) => sv is Init,
        None => false,
    }
}

/// The transform of entity `i`.
pub open spec fn transform_at(m: WorldModel, i: int) -> Transform {
    m.transforms[i]->Some_0
}

/// The resolved bounding box of entity `i`.
pub open spec fn bb_at(m: WorldModel, i: int) -> AABB {
    m.shapes[i]->Some_0.bb()
}

/// Both entities are collidable and their world-space boxes overlap.
pub open spec fn colliding(m: WorldModel, a: int, b: int) -> bool {
    &&& collidable(m, a)
    &&& collidable(m, b)
    &&& aabb_overlap(bb_at(m, a), transform_at(m, a), bb_at(m, b), transform_at(m, b))
}

/// The colliding pairs `(a, b)` with fixed `a` and `a < b < j`, in ascending
/// order of `b`.
pub open spec fn row_upto(m: WorldModel, a: int, j: int) -> Seq<(usize, usize)>
    decreases j - a,
{
    if j <= a + 1 {
        Seq::empty()
    } else {
        row_upto(m, a, j - 1) + if colliding(m, a, j - 1) {
            seq![(a as usize, (j - 1) as usize)]
        } else {
            Seq::empty()
        }
    }
}

/// The colliding canonical pairs `(a, b)` with `a < i` and `a < b < n`, rows
/// in ascending order of `a`.
pub open spec fn pairs_upto(m: WorldModel, i: int) -> Seq<(usize, usize)>
    decreases i,
{
    if i <= 0 {
        Seq::empty()
    } else {
        pairs_upto(m, i - 1) + row_upto(m, i - 1, m.n())
    }
}

/// The collision detector overwrites the collision set with the canonical
/// colliding pairs; nothing else changes.
pub open spec fn spec_collision_system(m: WorldModel) -> WorldModel {
    WorldModel { collisions: pairs_upto(m, m.n()), ..m }
}

/// What `row_upto` holds: exactly the pairs `(a, b)` with `a < b < j` that
/// collide.
pub proof fn lemma_row_membership(m: WorldModel, a: int, j: int)
    requires
        0 <= a,
        j <= m.n(),
        m.n() <= usize::MAX,
    ensures
        forall|p: (usize, usize)| #[trigger]
            row_upto(m, a, j).contains(p) <==> (p.0 == a && a < p.1 && (p.1 as int) < j
                && colliding(m, a, p.1 as int)),
    decreases j - a,
{
    if j <= a + 1 {
        assert(forall|p: (usize, usize)| !(#[trigger] row_upto(m, a, j).contains(p)));
    } else {
        lemma_row_membership(m, a, j - 1);
        let prev = row_upto(m, a, j - 1);
        let cur = row_upto(m, a, j);
        assert forall|p: (usize, usize)| #[trigger]
            cur.contains(p) <==> (p.0 == a && a < p.1 && (p.1 as int) < j && colliding(
                m,
                a,
                p.1 as int,
            )) by {
            if cur.contains(p) {
                let k = choose|k: int| 0 <= k < cur.len() && cur[k] == p;
                if k < prev.len() {
                    assert(prev[k] == p);
                    assert(prev.contains(p));
                } else {
                    assert(colliding(m, a, j - 1));
                    assert(p == (a as usize, (j - 1) as usize));
                }
            }
            if p.0 == a && a < p.1 && (p.1 as int) < j && colliding(m, a, p.1 as int) {
                if (p.1 as int) < j - 1 {
                    assert(prev.contains(p));
                    let k = choose|k: int| 0 <= k < prev.len() && prev[k] == p;
                    assert(cur[k] == p);
                } else {
                    assert(cur[prev.len() as int] == p);
                }
            }
        }
    }
}

/// What `pairs_upto` holds: exactly the canonical pairs `(a, b)` with
/// `a < i`, `a < b < n`, that collide.
pub proof fn lemma_pairs_membership(m: WorldModel, i: int)
    requires
        i <= m.n(),
        m.n() <= usize::MAX,
    ensures
        forall|p: (usize, usize)| #[trigger]
            pairs_upto(m, i).contains(p) <==> ((p.0 as int) < i && p.0 < p.1 && (p.1 as int)
                < m.n() && colliding(m, p.0 as int, p.1 as int)),
    decreases i,
{
    if i <= 0 {
        assert(forall|p: (usize, usize)| !(#[trigger] pairs_upto(m, i).contains(p)));
    } else {
        lemma_pairs_membership(m, i - 1);
        lemma_row_membership(m, i - 1, m.n());
        let prev = pairs_upto(m, i - 1);
        let row = row_upto(m, i - 1, m.n());
        let cur = pairs_upto(m, i);
        assert forall|p: (usize, usize)| #[trigger]
            cur.contains(p) <==> ((p.0 as int) < i && p.0 < p.1 && (p.1 as int) < m.n()
                && colliding(m, p.0 as int, p.1 as int)) by {
            if cur.contains(p) {
                let k = choose|k: int| 0 <= k < cur.len() && cur[k] == p;
                if k < prev.len() {
                    assert(prev[k] == p);
                    assert(prev.contains(p));
                } else {
                    assert(row[k - prev.len()] == p);
                    assert(row.contains(p));
                }
            }
            if (p.0 as int) < i && p.0 < p.1 && (p.1 as int) < m.n() && colliding(
                m,
                p.0 as int,
                p.1 as int,
            ) {
                if (p.0 as int) < i - 1 {
                    assert(prev.contains(p));
                    let k = choose|k: int| 0 <= k < prev.len() && prev[k] == p;
                    assert(cur[k] == p);
                } else {
                    assert(row.contains(p));
                    let k = choose|k: int| 0 <= k < row.len() && row[k] == p;
                    assert(cur[prev.len() + k] == p);
                }
            }
        }
    }
}

/// The computed collision set is a set indeed: no pair appears twice, and
/// every pair is canonically ordered.
pub proof fn lemma_pairs_canonical(m: WorldModel, i: int)
    requires
        i <= m.n(),
        m.n() <= usize::MAX,
    ensures
        forall|k: int|
            0 <= k < pairs_upto(m, i).len() ==> (#[trigger] pairs_upto(m, i)[k]).0 < pairs_upto(
                m,
                i,
            )[k].1,
        forall|k: int, l: int|
            0 <= k < pairs_upto(m, i).len() && 0 <= l < pairs_upto(m, i).len() && k != l
                ==> pairs_upto(m, i)[k] != pairs_upto(m, i)[l],
    decreases i,
{
    if i <= 0 {
    } else {
        lemma_pairs_canonical(m, i - 1);
        lemma_pairs_membership(m, i - 1);
        lemma_row_membership(m, i - 1, m.n());
        lemma_row_increasing(m, i - 1, m.n());
        let prev = pairs_upto(m, i - 1);
        let row = row_upto(m, i - 1, m.n());
        let cur = pairs_upto(m, i);
        assert forall|k: int| 0 <= k < cur.len() implies (#[trigger] cur[k]).0 < cur[k].1 by {
            if k < prev.len() {
                assert(cur[k] == prev[k]);
            } else {
                assert(cur[k] == row[k - prev.len()]);
                assert(row.contains(row[k - prev.len()]));
            }
        }
        assert forall|k: int, l: int|
            0 <= k < cur.len() && 0 <= l < cur.len() && k != l implies cur[k] != cur[l] by {
            if k < prev.len() && l < prev.len() {
                assert(cur[k] == prev[k] && cur[l] == prev[l]);
            } else if k < prev.len() && l >= prev.len() {
                assert(cur[k] == prev[k] && cur[l] == row[l - prev.len()]);
                assert(prev.contains(prev[k]));
                assert(row.contains(row[l - prev.len()]));
            } else if k >= prev.len() && l < prev.len() {
                assert(cur[k] == row[k - prev.len()] && cur[l] == prev[l]);
                assert(prev.contains(prev[l]));
                assert(row.contains(row[k - prev.len()]));
            } else {
                assert(cur[k] == row[k - prev.len()] && cur[l] == row[l - prev.len()]);
            }
        }
    }
}

/// Within one row the second ids strictly increase, so a row never repeats a
/// pair.
pub proof fn lemma_row_increasing(m: WorldModel, a: int, j: int)
    requires
        0 <= a,
        j <= m.n(),
        m.n() <= usize::MAX,
    ensures
        forall|k: int, l: int|
            0 <= k < l < row_upto(m, a, j).len() ==> (#[trigger] row_upto(m, a, j)[k]).1 < (
            #[trigger] row_upto(m, a, j)[l]).1,
    decreases j - a,
{
    if j <= a + 1 {
    } else {
        lemma_row_increasing(m, a, j - 1);
        lemma_row_membership(m, a, j - 1);
        let prev = row_upto(m, a, j - 1);
        let cur = row_upto(m, a, j);
        assert forall|k: int, l: int|
            0 <= k < l < cur.len() implies (#[trigger] cur[k]).1 < (#[trigger] cur[l]).1 by {
            if l < prev.len() {
                assert(cur[k] == prev[k] && cur[l] == prev[l]);
            } else {
                assert(cur[k] == prev[k]);
                assert(prev.contains(prev[k]));
                assert(cur[l] == (a as usize, (j - 1) as usize));
            }
        }
    }
}

/// Detects overlapping pairs and overwrites the collision set.
pub struct CollisionDetector3;

impl CollisionDetector3 {
    /// The interval `[min, max]` that one box covers along one axis in world
    /// space: `position + scale * middle -/+ scale * half`.
    fn axis_interval(pos: i64, scale: i64, mid: i64, half: i64) -> (r: (i64, i64))
        requires
            -COORD_BOUND <= pos <= COORD_BOUND,
            -VAL_BOUND <= scale <= VAL_BOUND,
            -VAL_BOUND <= mid <= VAL_BOUND,
            -VAL_BOUND <= half <= VAL_BOUND,
        ensures
            r.0 as int == axis_min(pos as int, scale as int, mid as int, half as int),
            r.1 as int == axis_max(pos as int, scale as int, mid as int, half as int),
    {
        proof {
            lemma_mul_bound(scale as int, mid as int, VAL_BOUND as int, VAL_BOUND as int);
            lemma_mul_bound(scale as int, half as int, VAL_BOUND as int, VAL_BOUND as int);
        }
        let center = pos + scale * mid;
        let extent = scale * half;
        (center - extent, center + extent)
    }

    /// The inclusive world-space overlap test: two boxes, each given
    /// by its local bounding box and its entity's transform, overlap exactly
    /// when their world intervals meet on all three axes. Orientation is
    /// ignored by design: boxes stay axis-aligned however the entity rotates.
    pub fn square_overlaps(box1: &AABB, t1: &Transform, box2: &AABB, t2: &Transform) -> (r: bool)
        requires
            box1.in_bound(VAL_BOUND as int),
            box2.in_bound(VAL_BOUND as int),
            t1.wf(),
            t2.wf(),
        ensures
            r == aabb_overlap(*box1, *t1, *box2, *t2),
    {
        let (min_x1, max_x1) = Self::axis_interval(
            t1.position.x,
            t1.scale.x,
            box1.middle_point.x,
            box1.half_size.x,
        );
        let (min_x2, max_x2) = Self::axis_interval(
            t2.position.x,
            t2.scale.x,
            box2.middle_point.x,
            box2.half_size.x,
        );
        let (min_y1, max_y1) = Self::axis_interval(
            t1.position.y,
            t1.scale.y,
            box1.middle_point.y,
            box1.half_size.y,
        );
        let (min_y2, max_y2) = Self::axis_interval(
            t2.position.y,
            t2.scale.y,
            box2.middle_point.y,
            box2.half_size.y,
        );
        let (min_z1, max_z1) = Self::axis_interval(
            t1.position.z,
            t1.scale.z,
            box1.middle_point.z,
            box1.half_size.z,
        );
        let (min_z2, max_z2) = Self::axis_interval(
            t2.position.z,
            t2.scale.z,
            box2.middle_point.z,
            box2.half_size.z,
        );
        (min_x1 <= max_x2 && max_x1 >= min_x2) && (min_y1 <= max_y2 && max_y1 >= min_y2) && (min_z1
            <= max_z2 && max_z1 >= min_z2)
    }

    /// If entity `i` is collidable, its bounding box and transform; `None`
    /// otherwise.
    fn collidable_data(w: &World, i: usize) -> (r: Option<(AABB, Transform)>)
        requires
            w.wf(),
            i < w.model().n(),
        ensures
            r is Some <==> collidable(w.model(), i as int),
            r matches Some(d) ==> d.0 == bb_at(w.model(), i as int) && d.1 == transform_at(
                w.model(),
                i as int,
            ) && d.0.in_bound(VAL_BOUND as int) && d.1.wf(),
    {
        if w.transforms[i].is_some() && w.colliders[i].is_some() {
            let t = w.transforms[i].unwrap();
            match &w.shapes[i] {
                Some(shape) => match shape {
                    crate::components::Shape::Init { bounding_box, .. } => Some((*bounding_box, t)),
                    _ => None,
                },
                None => None,
            }
        } else {
            None
        }
    }

    /// Clears the collision set and refills it with every overlapping pair of
    /// collidable entities, one canonical entry per unordered pair.
    pub fn run(&self, w: &mut World)
        requires
            old(w).wf(),
        ensures
            final(w).wf(),
            final(w).model() == spec_collision_system(old(w).model()),
            // The set semantics of the result: membership is exactly
            // canonical overlap, independent of any iteration order.
            forall|p: (usize, usize)| #[trigger]
                final(w).collisions.0@.contains(p) <==> (p.0 < p.1 && (p.1 as int) < old(
                    w,
                ).model().n() && colliding(old(w).model(), p.0 as int, p.1 as int)),
    {
        let ghost m = old(w).model();
        let n = w.alive.len();
        let mut pairs: Vec<(usize, usize)> = Vec::new();
        let mut i: usize = 0;
        while i < n
            invariant
                old(w).wf(),
                w == old(w),
                n == m.n(),
                m == old(w).model(),
                i <= n,
                pairs@ == pairs_upto(m, i as int),
            decreases n - i,
        {
            let data_i = Self::collidable_data(w, i);
            let mut j: usize = i + 1;
            while j < n
                invariant
                    old(w).wf(),
                    w == old(w),
                    n == m.n(),
                    m == old(w).model(),
                    i < j <= n,
                    i < n,
                    data_i is Some <==> collidable(m, i as int),
                    data_i matches Some(d) ==> d.0 == bb_at(m, i as int) && d.1 == transform_at(
                        m,
                        i as int,
                    ) && d.0.in_bound(VAL_BOUND as int) && d.1.wf(),
                    pairs@ == pairs_upto(m, i as int) + row_upto(m, i as int, j as int),
                decreases n - j,
            {
                if let Some((bb_i, t_i)) = data_i {
                    let data_j = Self::collidable_data(w, j);
                    if let Some((bb_j, t_j)) = data_j {
                        if Self::square_overlaps(&bb_i, &t_i, &bb_j, &t_j) {
                            pairs.push((i, j));
                        }
                    }
                }
                proof {
                    assert(row_upto(m, i as int, j + 1) == row_upto(m, i as int, j as int) + if colliding(
                        m,
                        i as int,
                        j as int,
                    ) {
                        seq![(i, j)]
                    } else {
                        Seq::<(usize, usize)>::empty()
                    });
                    if colliding(m, i as int, j as int) {
                        assert(pairs@ =~= pairs_upto(m, i as int) + row_upto(m, i as int, j + 1));
                    } else {
                        assert(pairs@ =~= pairs_upto(m, i as int) + row_upto(m, i as int, j + 1));
                    }
                }
                j = j + 1;
            }
            proof {
                assert(pairs_upto(m, i + 1) == pairs_upto(m, i as int) + row_upto(
                    m,
                    i as int,
                    m.n(),
                ));
            }
            i = i + 1;
        }
        w.collisions.0 = pairs;
        proof {
            lemma_pairs_membership(m, m.n());
            lemma_pairs_canonical(m, m.n());
            assert(w.model() =~= spec_collision_system(m));
        }
    }
}

} // verus!
