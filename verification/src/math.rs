//! Integer 3D vectors and orientation matrices.
//!
//! All simulation quantities are signed integers in fixed world units.
//! Two symmetric ranges keep every computation inside `i64`:
//! [`VAL_BOUND`] for per-entity data (velocities, scales, collider extents,
//! bounding-box extents, orientation entries, damage magnitudes) and the much
//! larger [`COORD_BOUND`] for world positions, camera offsets and health.
//! Sums that could leave a range saturate at its edge instead of overflowing.

use vstd::prelude::*;

verus! {

/// Bound on per-entity magnitudes: velocities, scales, collider and
/// bounding-box extents, orientation matrix entries, damage values.
pub const VAL_BOUND: i64 = 1048576;

/// Bound on world coordinates, camera offsets, zoom levels and health.
pub const COORD_BOUND: i64 = 72057594037927936;

/// A point or direction in world or mesh-local space.
#[derive(Clone, Copy, Debug, PartialEq, Eq, Structural)]
pub struct Vector3 {
    pub x: i64,
    pub y: i64,
    pub z: i64,
}

/// An orientation, stored by columns: `cx`, `cy` and `cz` are the images of
/// the local x, y and z axes. Rotations built by this crate are exact
/// quarter-turn matrices, so composing them never leaves the integers.
#[derive(Clone, Copy, Debug, PartialEq, Eq, Structural)]
pub struct Matrix3 {
    pub cx: Vector3,
    pub cy: Vector3,
    pub cz: Vector3,
}

/// `v` clamped to the symmetric interval `[-bound, bound]`.
pub open spec fn clamp_val(v: int, bound: int) -> int {
    if v > bound {
        bound
    } else if v < -bound {
        -bound
    } else {
        v
    }
}

impl Vector3 {
    /// Every component lies in `[-bound, bound]`.
    pub open spec fn in_bound(self, bound: int) -> bool {
        &&& -bound <= self.x <= bound
        &&& -bound <= self.y <= bound
        &&& -bound <= self.z <= bound
    }

    pub open spec fn spec_zero() -> Vector3 {
        Vector3 { x: 0, y: 0, z: 0 }
    }

    /// The origin, also the zero displacement.
    pub fn zero() -> (r: Vector3)
        ensures
            r == Vector3::spec_zero(),
    {
        Vector3 { x: 0, y: 0, z: 0 }
    }

    pub fn new(x: i64, y: i64, z: i64) -> (r: Vector3)
        ensures
            r == (Vector3 { x, y, z }),
    {
        Vector3 { x, y, z }
    }

    /// Componentwise sum, each component saturating at `[-bound, bound]`.
    pub fn add_clamped(&self, other: &Vector3, bound: i64) -> (r: Vector3)
        requires
            0 < bound,
        ensures
            r == spec_add_clamped(*self, *other, bound as int),
    {
        Vector3 {
            x: add_clamped_i64(self.x, other.x, bound),
            y: add_clamped_i64(self.y, other.y, bound),
            z: add_clamped_i64(self.z, other.z, bound),
        }
    }

    /// Componentwise difference, each component saturating at `[-bound, bound]`.
    pub fn sub_clamped(&self, other: &Vector3, bound: i64) -> (r: Vector3)
        requires
            0 < bound,
        ensures
            r == spec_sub_clamped(*self, *other, bound as int),
    {
        Vector3 {
            x: sub_clamped_i64(self.x, other.x, bound),
            y: sub_clamped_i64(self.y, other.y, bound),
            z: sub_clamped_i64(self.z, other.z, bound),
        }
    }

    /// Componentwise negation.
    pub fn neg(&self) -> (r: Vector3)
        requires
            self.in_bound(i64::MAX as int),
        ensures
            r == spec_neg(*self),
    {
        Vector3 { x: -self.x, y: -self.y, z: -self.z }
    }
}

pub open spec fn spec_add_clamped(a: Vector3, b: Vector3, bound: int) -> Vector3 {
    Vector3 {
        x: clamp_val(a.x + b.x, bound) as i64,
        y: clamp_val(a.y + b.y, bound) as i64,
        z: clamp_val(a.z + b.z, bound) as i64,
    }
}

pub open spec fn spec_sub_clamped(a: Vector3, b: Vector3, bound: int) -> Vector3 {
    Vector3 {
        x: clamp_val(a.x - b.x, bound) as i64,
        y: clamp_val(a.y - b.y, bound) as i64,
        z: clamp_val(a.z - b.z, bound) as i64,
    }
}

pub open spec fn spec_neg(v: Vector3) -> Vector3 {
    Vector3 { x: (-(v.x as int)) as i64, y: (-(v.y as int)) as i64, z: (-(v.z as int)) as i64 }
}

/// Saturating signed addition, clamped to `[-bound, bound]`.
pub fn add_clamped_i64(a: i64, b: i64, bound: i64) -> (r: i64)
    requires
        0 < bound,
    ensures
        r as int == clamp_val(a as int + b as int, bound as int),
{
    let s: i128 = a as i128 + b as i128;
    if s > bound as i128 {
        bound
    } else if s < -(bound as i128) {
        -bound
    } else {
        s as i64
    }
}

/// Saturating signed subtraction, clamped to `[-bound, bound]`.
pub fn sub_clamped_i64(a: i64, b: i64, bound: i64) -> (r: i64)
    requires
        0 < bound,
    ensures
        r as int == clamp_val(a as int - b as int, bound as int),
{
    let s: i128 = a as i128 - b as i128;
    if s > bound as i128 {
        bound
    } else if s < -(bound as i128) {
        -bound
    } else {
        s as i64
    }
}

impl Matrix3 {
    /// Every entry lies in `[-bound, bound]`.
    pub open spec fn in_bound(self, bound: int) -> bool {
        &&& self.cx.in_bound(bound)
        &&& self.cy.in_bound(bound)
        &&& self.cz.in_bound(bound)
    }

    pub open spec fn spec_identity() -> Matrix3 {
        Matrix3 {
            cx: Vector3 { x: 1, y: 0, z: 0 },
            cy: Vector3 { x: 0, y: 1, z: 0 },
            cz: Vector3 { x: 0, y: 0, z: 1 },
        }
    }

    pub fn identity() -> (r: Matrix3)
        ensures
            r == Matrix3::spec_identity(),
    {
        Matrix3 {
            cx: Vector3 { x: 1, y: 0, z: 0 },
            cy: Vector3 { x: 0, y: 1, z: 0 },
            cz: Vector3 { x: 0, y: 0, z: 1 },
        }
    }
}

/// Component `x` of the matrix-vector product `m * v`.
pub open spec fn mat_vec_x(m: Matrix3, v: Vector3) -> int {
    v.x * m.cx.x + v.y * m.cy.x + v.z * m.cz.x
}

/// Component `y` of the matrix-vector product `m * v`.
pub open spec fn mat_vec_y(m: Matrix3, v: Vector3) -> int {
    v.x * m.cx.y + v.y * m.cy.y + v.z * m.cz.y
}

/// Component `z` of the matrix-vector product `m * v`.
pub open spec fn mat_vec_z(m: Matrix3, v: Vector3) -> int {
    v.x * m.cx.z + v.y * m.cy.z + v.z * m.cz.z
}

/// `|a * b| <= ba * bb` whenever `|a| <= ba` and `|b| <= bb`.
pub proof fn lemma_mul_bound(a: int, b: int, ba: int, bb: int)
    requires
        -ba <= a <= ba,
        -bb <= b <= bb,
        0 <= ba,
        0 <= bb,
    ensures
        -(ba * bb) <= a * b <= ba * bb,
{
    assert(-(ba * bb) <= a * b <= ba * bb) by (nonlinear_arith)
        requires
            -ba <= a <= ba,
            -bb <= b <= bb,
            0 <= ba,
            0 <= bb,
    ;
}

/// The matrix-vector product `m * v`, exact: both inputs are within
/// [`VAL_BOUND`], so each component fits easily in `i64`.
pub fn mat_vec(m: &Matrix3, v: &Vector3) -> (r: Vector3)
    requires
        m.in_bound(VAL_BOUND as int),
        v.in_bound(VAL_BOUND as int),
    ensures
        r.x as int == mat_vec_x(*m, *v),
        r.y as int == mat_vec_y(*m, *v),
        r.z as int == mat_vec_z(*m, *v),
        r.in_bound(3 * (VAL_BOUND as int) * (VAL_BOUND as int)),
{
    proof {
        lemma_mul_bound(v.x as int, m.cx.x as int, VAL_BOUND as int, VAL_BOUND as int);
        lemma_mul_bound(v.y as int, m.cy.x as int, VAL_BOUND as int, VAL_BOUND as int);
        lemma_mul_bound(v.z as int, m.cz.x as int, VAL_BOUND as int, VAL_BOUND as int);
        lemma_mul_bound(v.x as int, m.cx.y as int, VAL_BOUND as int, VAL_BOUND as int);
        lemma_mul_bound(v.y as int, m.cy.y as int, VAL_BOUND as int, VAL_BOUND as int);
        lemma_mul_bound(v.z as int, m.cz.y as int, VAL_BOUND as int, VAL_BOUND as int);
        lemma_mul_bound(v.x as int, m.cx.z as int, VAL_BOUND as int, VAL_BOUND as int);
        lemma_mul_bound(v.y as int, m.cy.z as int, VAL_BOUND as int, VAL_BOUND as int);
        lemma_mul_bound(v.z as int, m.cz.z as int, VAL_BOUND as int, VAL_BOUND as int);
    }
    Vector3 {
        x: v.x * m.cx.x + v.y * m.cy.x + v.z * m.cz.x,
        y: v.x * m.cx.y + v.y * m.cy.y + v.z * m.cz.y,
        z: v.x * m.cx.z + v.y * m.cy.z + v.z * m.cz.z,
    }
}

} // verus!
