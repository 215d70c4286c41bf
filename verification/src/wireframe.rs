//! The edges of an indexed triangle mesh, for drawing it as a wireframe.

use vstd::prelude::*;

verus! {

/// The edges that the triangle `(a, b, c)` contributes: of its three sides
/// `a-b`, `b-c` and `c-a`, in this order, those that run from the lower to
/// the higher vertex. A side shared by two triangles of opposite winding is
/// thereby listed once.
pub open spec fn triangle_edges(a: u32, b: u32, c: u32) -> Seq<(u32, u32)> {
    let first = if a < b {
        seq![(a, b)]
    } else {
        Seq::<(u32, u32)>::empty()
    };
    let second = if b < c {
        seq![(b, c)]
    } else {
        Seq::<(u32, u32)>::empty()
    };
    let third = if c < a {
        seq![(c, a)]
    } else {
        Seq::<(u32, u32)>::empty()
    };
    first + second + third
}

/// The edges of the first `triangles` triangles of an index buffer, triangle
/// by triangle.
pub open spec fn edges_of(indices: Seq<u32>, triangles: nat) -> Seq<(u32, u32)>
    decreases triangles,
{
    if triangles == 0 {
        Seq::<(u32, u32)>::empty()
    } else {
        let f = triangles - 1;
        edges_of(indices, f as nat) + triangle_edges(
            indices[3 * f],
            indices[3 * f + 1],
            indices[3 * f + 2],
        )
    }
}

/// Lists the edges of the whole triangles of an index buffer; indices left
/// over after the last whole triangle are ignored.
pub fn wireframe_edges(indices: &Vec<u32>) -> (edges: Vec<(u32, u32)>)
    ensures
        edges@ == edges_of(indices@, indices@.len() / 3),
{
    let len = indices.len();
    let triangles = len / 3;
    let mut edges: Vec<(u32, u32)> = Vec::new();
    let mut f: usize = 0;
    while f < triangles
        invariant
            len == indices@.len(),
            triangles == len / 3,
            f <= triangles,
            edges@ == edges_of(indices@, f as nat),
        decreases triangles - f,
    {
        let i1 = indices[3 * f];
        let i2 = indices[3 * f + 1];
        let i3 = indices[3 * f + 2];
        let ghost before = edges@;
        if i1 < i2 {
            edges.push((i1, i2));
        }
        if i2 < i3 {
            edges.push((i2, i3));
        }
        if i3 < i1 {
            edges.push((i3, i1));
        }
        assert(edges@ =~= before + triangle_edges(i1, i2, i3));
        f += 1;
    }
    edges
}

} // verus!
