//! Vertex data and bounding extents.
//!
//! The mesh-loading collaborator parses an asset file into vertices outside
//! this crate; what the simulation needs from a mesh is only its bounding
//! extents, and that computation is plain arithmetic over the vertex
//! positions, so it lives here: [`bounding_extents`] folds the per-axis
//! minimum and maximum over a vertex list.

use vstd::prelude::*;

use crate::data::AABB;
use crate::math::{Vector3, VAL_BOUND};

verus! {

/// The role of a vertex attribute as the renderer's shaders see it.
#[derive(Clone, Copy, Debug, PartialEq, Eq, Structural)]
pub enum VertexSemantics {
    Position,
    Color,
}

/// One mesh vertex: a position and a color, both integer triples in the
/// mesh's local units.
#[derive(Clone, Copy, Debug, PartialEq, Eq, Structural)]
pub struct Vertex {
    pub pos: Vector3,
    pub color: Vector3,
}

/// A running minimum extended by one value.
pub open spec fn spec_parse_min(current: Option<i64>, new: i64) -> Option<i64> {
    match current {
        None => Some(new),
        Some(value) => if new < value {
            Some(new)
        } else {
            Some(value)
        },
    }
}

/// A running maximum extended by one value.
pub open spec fn spec_parse_max(current: Option<i64>, new: i64) -> Option<i64> {
    match current {
        None => Some(new),
        Some(value) => if new > value {
            Some(new)
        } else {
            Some(value)
        },
    }
}

/// Folds one coordinate into a running minimum.
pub fn parse_min_value(current: Option<i64>, new: i64) -> (r: Option<i64>)
    ensures
        r == spec_parse_min(current, new),
{
    match current {
        None => Some(new),
        Some(value) => {
            if new < value {
                Some(new)
            } else {
                Some(value)
            }
        },
    }
}

/// Folds one coordinate into a running maximum.
pub fn parse_max_value(current: Option<i64>, new: i64) -> (r: Option<i64>)
    ensures
        r == spec_parse_max(current, new),
{
    match current {
        None => Some(new),
        Some(value) => {
            if new > value {
                Some(new)
            } else {
                Some(value)
            }
        },
    }
}

/// `lo` bounds every vertex position from below, per axis.
pub open spec fn is_lower_bound(lo: Vector3, vs: Seq<Vertex>) -> bool {
    forall|k: int|
        0 <= k < vs.len() ==> lo.x <= (#[trigger] vs[k]).pos.x && lo.y <= vs[k].pos.y && lo.z
            <= vs[k].pos.z
}

/// Each of `lo`'s components is hit by some vertex.
pub open spec fn lower_attained(lo: Vector3, vs: Seq<Vertex>) -> bool {
    &&& exists|k: int| 0 <= k < vs.len() && lo.x == (#[trigger] vs[k]).pos.x
    &&& exists|k: int| 0 <= k < vs.len() && lo.y == (#[trigger] vs[k]).pos.y
    &&& exists|k: int| 0 <= k < vs.len() && lo.z == (#[trigger] vs[k]).pos.z
}

/// `hi` bounds every vertex position from above, per axis.
pub open spec fn is_upper_bound(hi: Vector3, vs: Seq<Vertex>) -> bool {
    forall|k: int|
        0 <= k < vs.len() ==> (#[trigger] vs[k]).pos.x <= hi.x && vs[k].pos.y <= hi.y && vs[k].pos.z
            <= hi.z
}

/// Each of `hi`'s components is hit by some vertex.
pub open spec fn upper_attained(hi: Vector3, vs: Seq<Vertex>) -> bool {
    &&& exists|k: int| 0 <= k < vs.len() && hi.x == (#[trigger] vs[k]).pos.x
    &&& exists|k: int| 0 <= k < vs.len() && hi.y == (#[trigger] vs[k]).pos.y
    &&& exists|k: int| 0 <= k < vs.len() && hi.z == (#[trigger] vs[k]).pos.z
}

/// The per-axis minimum and maximum corner over a vertex list; `None` exactly
/// when the list is empty. The two corners pin a mesh's local bounding box:
/// its middle point and half-sizes derive from them.
pub fn bounding_extents(vertices: &Vec<Vertex>) -> (r: Option<(Vector3, Vector3)>)
    ensures
        r is Some <==> vertices@.len() > 0,
        r matches Some(e) ==> is_lower_bound(e.0, vertices@) && lower_attained(e.0, vertices@)
            && is_upper_bound(e.1, vertices@) && upper_attained(e.1, vertices@),
{
    let n = vertices.len();
    let mut min_x: Option<i64> = None;
    let mut min_y: Option<i64> = None;
    let mut min_z: Option<i64> = None;
    let mut max_x: Option<i64> = None;
    let mut max_y: Option<i64> = None;
    let mut max_z: Option<i64> = None;
    let mut i: usize = 0;
    while i < n
        invariant
            n == vertices@.len(),
            i <= n,
            min_x is Some <==> i > 0,
            min_y is Some <==> i > 0,
            min_z is Some <==> i > 0,
            max_x is Some <==> i > 0,
            max_y is Some <==> i > 0,
            max_z is Some <==> i > 0,
            min_x matches Some(v) ==> (forall|k: int|
                0 <= k < i ==> v <= (#[trigger] vertices@[k]).pos.x) && (exists|k: int|
                0 <= k < i && v == (#[trigger] vertices@[k]).pos.x),
            min_y matches Some(v) ==> (forall|k: int|
                0 <= k < i ==> v <= (#[trigger] vertices@[k]).pos.y) && (exists|k: int|
                0 <= k < i && v == (#[trigger] vertices@[k]).pos.y),
            min_z matches Some(v) ==> (forall|k: int|
                0 <= k < i ==> v <= (#[trigger] vertices@[k]).pos.z) && (exists|k: int|
                0 <= k < i && v == (#[trigger] vertices@[k]).pos.z),
            max_x matches Some(v) ==> (forall|k: int|
                0 <= k < i ==> (#[trigger] vertices@[k]).pos.x <= v) && (exists|k: int|
                0 <= k < i && v == (#[trigger] vertices@[k]).pos.x),
            max_y matches Some(v) ==> (forall|k: int|
                0 <= k < i ==> (#[trigger] vertices@[k]).pos.y <= v) && (exists|k: int|
                0 <= k < i && v == (#[trigger] vertices@[k]).pos.y),
            max_z matches Some(v) ==> (forall|k: int|
                0 <= k < i ==> (#[trigger] vertices@[k]).pos.z <= v) && (exists|k: int|
                0 <= k < i && v == (#[trigger] vertices@[k]).pos.z),
        decreases n - i,
    {
        let p = vertices[i].pos;
        min_x = parse_min_value(min_x, p.x);
        min_y = parse_min_value(min_y, p.y);
        min_z = parse_min_value(min_z, p.z);
        max_x = parse_max_value(max_x, p.x);
        max_y = parse_max_value(max_y, p.y);
        max_z = parse_max_value(max_z, p.z);
        i = i + 1;
    }
    match (min_x, min_y, min_z, max_x, max_y, max_z) {
        (Some(x0), Some(y0), Some(z0), Some(x1), Some(y1), Some(z1)) => Some(
            (Vector3 { x: x0, y: y0, z: z0 }, Vector3 { x: x1, y: y1, z: z1 }),
        ),
        _ => None,
    }
}

/// The wireframe vertices a renderer draws for a bounding box: the box's
/// eight corners in green, then an axis marker from the origin to twice the
/// box's upper corner along each world axis — red for x, green for y, blue
/// for z — with colors as unit triples.
pub open spec fn spec_aabb_line_vertices(aabb: AABB) -> Seq<Vertex> {
    let min_x = (aabb.middle_point.x - aabb.half_size.x) as i64;
    let min_y = (aabb.middle_point.y - aabb.half_size.y) as i64;
    let min_z = (aabb.middle_point.z - aabb.half_size.z) as i64;
    let max_x = (aabb.middle_point.x + aabb.half_size.x) as i64;
    let max_y = (aabb.middle_point.y + aabb.half_size.y) as i64;
    let max_z = (aabb.middle_point.z + aabb.half_size.z) as i64;
    let green = Vector3 { x: 0, y: 1, z: 0 };
    seq![
        Vertex { pos: Vector3 { x: min_x, y: min_y, z: min_z }, color: green },
        Vertex { pos: Vector3 { x: max_x, y: min_y, z: min_z }, color: green },
        Vertex { pos: Vector3 { x: min_x, y: max_y, z: min_z }, color: green },
        Vertex { pos: Vector3 { x: min_x, y: min_y, z: max_z }, color: green },
        Vertex { pos: Vector3 { x: max_x, y: max_y, z: min_z }, color: green },
        Vertex { pos: Vector3 { x: min_x, y: max_y, z: max_z }, color: green },
        Vertex { pos: Vector3 { x: max_x, y: min_y, z: max_z }, color: green },
        Vertex { pos: Vector3 { x: max_x, y: max_y, z: max_z }, color: green },
        Vertex { pos: Vector3 { x: 0, y: 0, z: 0 }, color: green },
        Vertex {
            pos: Vector3 { x: (2 * max_x) as i64, y: 0, z: 0 },
            color: Vector3 { x: 1, y: 0, z: 0 },
        },
        Vertex { pos: Vector3 { x: 0, y: (2 * max_y) as i64, z: 0 }, color: green },
        Vertex {
            pos: Vector3 { x: 0, y: 0, z: (2 * max_z) as i64 },
            color: Vector3 { x: 0, y: 0, z: 1 },
        },
    ]
}

/// The index pairs of the wireframe's line segments: the box's twelve edges
/// followed by the three axis markers.
pub open spec fn spec_aabb_line_indices() -> Seq<u32> {
    seq![
        0u32, 1, 0, 3, 0, 2, 1, 0, 1, 6, 1, 4, 6, 3, 6, 7, 3, 5, 2, 4, 2, 5, 7, 4, 7, 5, 8, 9, 8,
        10, 8, 11,
    ]
}

/// The line-list geometry of a bounding box, for the renderer's debug
/// wireframe: vertices and indices, drawn as line segments.
pub fn generate_aabb(aabb: &AABB) -> (r: (Vec<Vertex>, Vec<u32>))
    requires
        aabb.in_bound(VAL_BOUND as int),
    ensures
        r.0@ == spec_aabb_line_vertices(*aabb),
        r.1@ == spec_aabb_line_indices(),
{
    let min_x = aabb.middle_point.x - aabb.half_size.x;
    let min_y = aabb.middle_point.y - aabb.half_size.y;
    let min_z = aabb.middle_point.z - aabb.half_size.z;
    let max_x = aabb.middle_point.x + aabb.half_size.x;
    let max_y = aabb.middle_point.y + aabb.half_size.y;
    let max_z = aabb.middle_point.z + aabb.half_size.z;
    let green = Vector3 { x: 0, y: 1, z: 0 };
    let mut vertices: Vec<Vertex> = Vec::new();
    vertices.push(Vertex { pos: Vector3 { x: min_x, y: min_y, z: min_z }, color: green });
    vertices.push(Vertex { pos: Vector3 { x: max_x, y: min_y, z: min_z }, color: green });
    vertices.push(Vertex { pos: Vector3 { x: min_x, y: max_y, z: min_z }, color: green });
    vertices.push(Vertex { pos: Vector3 { x: min_x, y: min_y, z: max_z }, color: green });
    vertices.push(Vertex { pos: Vector3 { x: max_x, y: max_y, z: min_z }, color: green });
    vertices.push(Vertex { pos: Vector3 { x: min_x, y: max_y, z: max_z }, color: green });
    vertices.push(Vertex { pos: Vector3 { x: max_x, y: min_y, z: max_z }, color: green });
    vertices.push(Vertex { pos: Vector3 { x: max_x, y: max_y, z: max_z }, color: green });
    vertices.push(Vertex { pos: Vector3 { x: 0, y: 0, z: 0 }, color: green });
    vertices.push(
        Vertex { pos: Vector3 { x: 2 * max_x, y: 0, z: 0 }, color: Vector3 { x: 1, y: 0, z: 0 } },
    );
    vertices.push(Vertex { pos: Vector3 { x: 0, y: 2 * max_y, z: 0 }, color: green });
    vertices.push(
        Vertex { pos: Vector3 { x: 0, y: 0, z: 2 * max_z }, color: Vector3 { x: 0, y: 0, z: 1 } },
    );
    let mut indices: Vec<u32> = Vec::new();
    indices.push(0);
    indices.push(1);
    indices.push(0);
    indices.push(3);
    indices.push(0);
    indices.push(2);
    indices.push(1);
    indices.push(0);
    indices.push(1);
    indices.push(6);
    indices.push(1);
    indices.push(4);
    indices.push(6);
    indices.push(3);
    indices.push(6);
    indices.push(7);
    indices.push(3);
    indices.push(5);
    indices.push(2);
    indices.push(4);
    indices.push(2);
    indices.push(5);
    indices.push(7);
    indices.push(4);
    indices.push(7);
    indices.push(5);
    indices.push(8);
    indices.push(9);
    indices.push(8);
    indices.push(10);
    indices.push(8);
    indices.push(11);
    proof {
        assert(vertices@ =~= spec_aabb_line_vertices(*aabb));
        assert(indices@ =~= spec_aabb_line_indices());
    }
    (vertices, indices)
}

} // verus!
