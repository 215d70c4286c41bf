//! The ribbon mesher: an indexed triangle mesh over a grid of point rows.

use vstd::prelude::*;
use vstd::arithmetic::div_mod::lemma_fundamental_div_mod_converse;
use crate::arc_length::{choose_uvs, lemma_textured_count, textured};
use crate::geometry::{Point3, Uv};
use crate::grid::{flatten, flattened, is_grid, lemma_slot, lemma_slot_bound};

verus! {

/// Why a grid of paths cannot be meshed.
#[derive(Clone, Copy, Debug, PartialEq, Eq, Structural)]
pub enum RibbonError {
    /// Fewer than two paths.
    TooFewPaths,
    /// The first path has fewer than two points.
    TooFewPoints,
    /// Some path differs in length from the first.
    RaggedPaths,
    /// More vertices than a 32-bit index can address.
    TooManyVertices,
    /// Texture coordinates were supplied, but not one per point.
    UvCountMismatch,
}

/// Why a mesh cannot take new vertex data in place.
#[derive(Clone, Copy, Debug, PartialEq, Eq, Structural)]
pub enum MorphError {
    /// The paths do not form a grid of the mesh's shape.
    ShapeMismatch,
    /// Not one texture coordinate per vertex was supplied.
    UvCountMismatch,
}

/// An indexed triangle mesh over a grid of `rows` paths with `cols` points
/// each. Positions and texture coordinates are stored row-major; the index
/// buffer depends on the shape of the grid alone.
#[derive(Debug, PartialEq)]
pub struct Ribbon<S> {
    /// Number of paths.
    pub rows: usize,
    /// Number of points per path.
    pub cols: usize,
    /// One point per vertex, row-major.
    pub positions: Vec<Point3<S>>,
    /// One texture coordinate per vertex, row-major.
    pub uvs: Vec<Uv<S>>,
    /// Three vertex indices per triangle, two triangles per quad.
    pub indices: Vec<u32>,
}

impl<S> Ribbon<S> {
    /// The mesh has one position and one texture coordinate per grid point,
    /// and the index buffer of its shape.
    pub open spec fn wf(&self) -> bool {
        &&& self.rows >= 2
        &&& self.cols >= 2
        &&& self.rows * self.cols <= u32::MAX
        &&& self.positions@.len() == self.rows * self.cols
        &&& self.uvs@.len() == self.rows * self.cols
        &&& self.indices@ == ribbon_indices(self.rows as int, self.cols as int)
    }
}

/// The shape of `paths` if it is a grid that can be meshed, or the first
/// reason why it is not.
pub open spec fn grid_shape_of<T>(paths: Seq<Vec<T>>) -> Result<(int, int), RibbonError> {
    if paths.len() < 2 {
        Err(RibbonError::TooFewPaths)
    } else if paths[0]@.len() < 2 {
        Err(RibbonError::TooFewPoints)
    } else if !is_grid(paths, paths.len() as int, paths[0]@.len() as int) {
        Err(RibbonError::RaggedPaths)
    } else {
        Ok((paths.len() as int, paths[0]@.len() as int))
    }
}

/// What meshing `paths` with `uv_count` supplied texture coordinates yields:
/// the shape of the mesh, or the first reason why there is none.
pub open spec fn ribbon_shape_of<T>(paths: Seq<Vec<T>>, uv_count: int) -> Result<
    (int, int),
    RibbonError,
> {
    match grid_shape_of(paths) {
        Err(e) => Err(e),
        Ok((rows, cols)) => if rows * cols > u32::MAX {
            Err(RibbonError::TooManyVertices)
        } else if uv_count != 0 && uv_count != rows * cols {
            Err(RibbonError::UvCountMismatch)
        } else {
            Ok((rows, cols))
        },
    }
}

/// The vertex that slot `k` of the index buffer names in a ribbon with `cols`
/// points per path. Each quad `(i, j)` owns six consecutive slots: the
/// triangle `(i, j)`, `(i, j + 1)`, `(i + 1, j + 1)` followed by the triangle
/// `(i + 1, j + 1)`, `(i + 1, j)`, `(i, j)`.
pub open spec fn triangle_vertex(cols: int, k: int) -> int {
    let quad = k / 6;
    let corner = k % 6;
    let i = quad / (cols - 1);
    let j = quad % (cols - 1);
    if corner == 0 || corner == 5 {
        i * cols + j
    } else if corner == 1 {
        i * cols + j + 1
    } else if corner == 2 || corner == 3 {
        (i + 1) * cols + j + 1
    } else {
        (i + 1) * cols + j
    }
}

/// The index buffer of a ribbon with `rows` paths of `cols` points.
pub open spec fn ribbon_indices(rows: int, cols: int) -> Seq<u32> {
    Seq::new((6 * ((rows - 1) * (cols - 1))) as nat, |k: int| triangle_vertex(cols, k) as u32)
}

/// Slot `6 * (i * (cols - 1) + j) + corner` belongs to quad `(i, j)`.
pub proof fn lemma_quad_slot(i: int, j: int, corner: int, cols: int)
    requires
        0 <= i,
        0 <= j < cols - 1,
        0 <= corner < 6,
    ensures
        (6 * (i * (cols - 1) + j) + corner) / 6 == i * (cols - 1) + j,
        (6 * (i * (cols - 1) + j) + corner) % 6 == corner,
        (i * (cols - 1) + j) / (cols - 1) == i,
        (i * (cols - 1) + j) % (cols - 1) == j,
{
    let q = i * (cols - 1) + j;
    lemma_slot(i, j, cols - 1);
    lemma_fundamental_div_mod_converse(6 * q + corner, 6, q, corner);
}

/// Every slot of the index buffer names a vertex of the ribbon.
pub proof fn lemma_triangle_vertex_in_range(rows: int, cols: int, k: int)
    requires
        rows >= 2,
        cols >= 2,
        0 <= k < 6 * ((rows - 1) * (cols - 1)),
    ensures
        0 <= triangle_vertex(cols, k) < rows * cols,
{
    let quad = k / 6;
    let i = quad / (cols - 1);
    let j = quad % (cols - 1);
    assert(0 <= quad < (rows - 1) * (cols - 1));
    assert(0 <= i < rows - 1 && 0 <= j < cols - 1) by (nonlinear_arith)
        requires
            0 <= quad < (rows - 1) * (cols - 1),
            cols - 1 > 0,
            i == quad / (cols - 1),
            j == quad % (cols - 1),
    ;
    lemma_slot_bound(i, j, rows, cols);
    lemma_slot_bound(i + 1, j + 1, rows, cols);
    lemma_slot_bound(i + 1, j, rows, cols);
    lemma_slot_bound(i, j + 1, rows, cols);
}

/// The index buffer has six entries for each quad of the grid, and each of
/// them names a vertex of the grid.
pub proof fn lemma_ribbon_indices(rows: int, cols: int)
    requires
        rows >= 2,
        cols >= 2,
        rows * cols <= u32::MAX,
    ensures
        ribbon_indices(rows, cols).len() == 6 * (rows - 1) * (cols - 1),
        forall|k: int|
            0 <= k < ribbon_indices(rows, cols).len() ==> (#[trigger] ribbon_indices(rows, cols)[k])
                < rows * cols,
        forall|k: int|
            0 <= k < ribbon_indices(rows, cols).len() ==> (#[trigger] ribbon_indices(rows, cols)[k])
                == triangle_vertex(cols, k),
{
    assert((rows - 1) * (cols - 1) >= 0) by (nonlinear_arith)
        requires
            rows >= 2,
            cols >= 2,
    ;
    assert(6 * ((rows - 1) * (cols - 1)) == 6 * (rows - 1) * (cols - 1)) by (nonlinear_arith);
    assert forall|k: int| 0 <= k < ribbon_indices(rows, cols).len() implies (
    #[trigger] ribbon_indices(rows, cols)[k]) < rows * cols && ribbon_indices(rows, cols)[k]
        == triangle_vertex(cols, k) by {
        lemma_triangle_vertex_in_range(rows, cols, k);
    }
}

/// Builds the index buffer of a ribbon with `rows` paths of `cols` points.
pub fn triangulate(rows: usize, cols: usize) -> (indices: Vec<u32>)
    requires
        rows >= 2,
        cols >= 2,
        rows * cols <= u32::MAX,
    ensures
        indices@ == ribbon_indices(rows as int, cols as int),
{
    let mut indices: Vec<u32> = Vec::new();
    let mut i: usize = 0;
    while i < rows - 1
        invariant
            rows >= 2,
            cols >= 2,
            rows * cols <= u32::MAX,
            i <= rows - 1,
            indices@.len() == 6 * (i * (cols - 1)),
            forall|k: int| 0 <= k < indices@.len() ==> indices@[k] == triangle_vertex(cols as int, k),
        decreases rows - 1 - i,
    {
        let mut j: usize = 0;
        while j < cols - 1
            invariant
                rows >= 2,
                cols >= 2,
                rows * cols <= u32::MAX,
                i < rows - 1,
                j <= cols - 1,
                indices@.len() == 6 * (i * (cols - 1) + j),
                forall|k: int| 0 <= k < indices@.len() ==> indices@[k] == triangle_vertex(cols as int, k),
            decreases cols - 1 - j,
        {
            proof {
                lemma_slot_bound(i as int, j as int, rows as int, cols as int);
                lemma_slot_bound(i + 1, j + 1, rows as int, cols as int);
                lemma_quad_slot(i as int, j as int, 0, cols as int);
                lemma_quad_slot(i as int, j as int, 1, cols as int);
                lemma_quad_slot(i as int, j as int, 2, cols as int);
                lemma_quad_slot(i as int, j as int, 3, cols as int);
                lemma_quad_slot(i as int, j as int, 4, cols as int);
                lemma_quad_slot(i as int, j as int, 5, cols as int);
            }
            let i0: u32 = (i * cols + j) as u32;
            let i1: u32 = i0 + 1;
            let j0: u32 = ((i + 1) * cols + j) as u32;
            let j1: u32 = j0 + 1;
            indices.push(i0);
            indices.push(i1);
            indices.push(j1);
            indices.push(j1);
            indices.push(j0);
            indices.push(i0);
            j += 1;
        }
        proof {
            assert(6 * (i * (cols - 1) + (cols - 1)) == 6 * ((i + 1) * (cols - 1))) by (nonlinear_arith);
        }
        i += 1;
    }
    assert(indices@ =~= ribbon_indices(rows as int, cols as int));
    indices
}

/// Measures a grid of paths: at least two paths, at least two points in the
/// first, and every path as long as the first.
pub fn grid_shape<T>(paths: &Vec<Vec<T>>) -> (shape: Result<(usize, usize), RibbonError>)
    ensures
        match shape {
            Ok((rows, cols)) => grid_shape_of(paths@) == Ok::<(int, int), RibbonError>(
                (rows as int, cols as int),
            ),
            Err(e) => grid_shape_of(paths@) == Err::<(int, int), RibbonError>(e),
        },
{
    let rows = paths.len();
    if rows < 2 {
        return Err(RibbonError::TooFewPaths);
    }
    let cols = paths[0].len();
    if cols < 2 {
        return Err(RibbonError::TooFewPoints);
    }
    let mut i: usize = 1;
    while i < rows
        invariant
            rows == paths@.len(),
            cols == paths@[0]@.len(),
            rows >= 2,
            cols >= 2,
            1 <= i <= rows,
            forall|k: int| 0 <= k < i ==> (#[trigger] paths@[k])@.len() == cols,
        decreases rows - i,
    {
        if paths[i].len() != cols {
            assert(paths@[i as int]@.len() != cols);
            return Err(RibbonError::RaggedPaths);
        }
        i += 1;
    }
    Ok((rows, cols))
}

/// Whether a grid of `rows` by `cols` vertices can be addressed by 32-bit
/// indices.
pub fn fits_index(rows: usize, cols: usize) -> (fits: bool)
    ensures
        fits == (rows * cols <= u32::MAX),
{
    if rows == 0 || cols == 0 {
        assert(rows * cols == 0) by (nonlinear_arith)
            requires
                rows == 0 || cols == 0,
        ;
        true
    } else if rows > 0xffff_ffff || cols > 0xffff_ffff {
        assert(rows * cols > u32::MAX) by (nonlinear_arith)
            requires
                rows >= 1,
                cols >= 1,
                rows > 0xffff_ffff || cols > 0xffff_ffff,
        ;
        false
    } else {
        assert(rows * cols <= 0xffff_ffff * 0xffff_ffff) by (nonlinear_arith)
            requires
                rows <= 0xffff_ffff,
                cols <= 0xffff_ffff,
        ;
        rows as u64 * cols as u64 <= 0xffff_ffff
    }
}

/// Builds the ribbon mesh over `paths`: the points in row-major order, one
/// texture coordinate per point, and two triangles per quad.
///
/// `map_uvs` is either empty or holds one coordinate per point, row-major.
/// Supplied coordinates are copied through unchanged and no length is
/// measured. When `map_uvs` is empty the coordinates are computed from arc
/// lengths: for each point the running length along its row and down its
/// column, each divided by the total of that row or column. The arithmetic
/// is the caller's: `extend(sum, a, b)` answers the running length `sum`
/// extended by the distance from `a` to `b`, starting from `zero`, and
/// `ratio(part, total)` answers `part` as a fraction of `total`.
pub fn create_ribbon<S: Copy, D: Fn(S, Point3<S>, Point3<S>) -> S, R: Fn(S, S) -> S>(
    paths: &Vec<Vec<Point3<S>>>,
    map_uvs: &Vec<Uv<S>>,
    zero: S,
    extend: &D,
    ratio: &R,
) -> (mesh: Result<Ribbon<S>, RibbonError>)
    requires
        forall|sum: S, a: Point3<S>, b: Point3<S>| call_requires(*extend, (sum, a, b)),
        forall|part: S, total: S| call_requires(*ratio, (part, total)),
    ensures
        match mesh {
            Ok(m) => {
                &&& ribbon_shape_of(paths@, map_uvs@.len() as int) == Ok::<(int, int), RibbonError>(
                    (m.rows as int, m.cols as int),
                )
                &&& m.wf()
                &&& m.positions@ == flattened(paths@, m.cols as int)
                &&& textured(paths@, map_uvs@, zero, *extend, *ratio, m.uvs@)
                &&& map_uvs@.len() != 0 ==> m.uvs@ == map_uvs@
                &&& m.indices@.len() == 6 * (m.rows - 1) * (m.cols - 1)
                &&& forall|k: int|
                    0 <= k < m.indices@.len() ==> (#[trigger] m.indices@[k]) < m.rows * m.cols
            },
            Err(e) => ribbon_shape_of(paths@, map_uvs@.len() as int) == Err::<(int, int), RibbonError>(e),
        },
{
    let (rows, cols) = match grid_shape(paths) {
        Ok(shape) => shape,
        Err(e) => { return Err(e); },
    };
    if !fits_index(rows, cols) {
        return Err(RibbonError::TooManyVertices);
    }
    let count: usize = rows * cols;
    if map_uvs.len() != 0 && map_uvs.len() != count {
        return Err(RibbonError::UvCountMismatch);
    }
    let positions = flatten(paths, cols);
    let uvs = choose_uvs(paths, rows, cols, map_uvs, zero, extend, ratio);
    let indices = triangulate(rows, cols);
    proof {
        lemma_ribbon_indices(rows as int, cols as int);
        lemma_textured_count(paths@, map_uvs@, zero, *extend, *ratio, uvs@);
    }
    Ok(Ribbon { rows, cols, positions, uvs, indices })
}

/// Whether `paths` has exactly `rows` paths of `cols` points.
pub fn has_shape<T>(paths: &Vec<Vec<T>>, rows: usize, cols: usize) -> (same: bool)
    ensures
        same == is_grid(paths@, rows as int, cols as int),
{
    if paths.len() != rows {
        return false;
    }
    let mut i: usize = 0;
    while i < rows
        invariant
            rows == paths@.len(),
            i <= rows,
            forall|k: int| 0 <= k < i ==> (#[trigger] paths@[k])@.len() == cols,
        decreases rows - i,
    {
        if paths[i].len() != cols {
            assert(paths@[i as int]@.len() != cols);
            return false;
        }
        i += 1;
    }
    true
}

/// What `morph_ribbon` answers for a mesh of `rows` by `cols` vertices, given
/// `paths` and `uv_count` new texture coordinates.
pub open spec fn morph_outcome<T>(rows: int, cols: int, paths: Seq<Vec<T>>, uv_count: int) -> Result<
    (),
    MorphError,
> {
    if !is_grid(paths, rows, cols) {
        Err(MorphError::ShapeMismatch)
    } else if uv_count != rows * cols {
        Err(MorphError::UvCountMismatch)
    } else {
        Ok(())
    }
}

/// Overwrites the vertex data of `mesh` in place with the points of `paths`
/// and the texture coordinates `uvs`. The shape and the index buffer never
/// change; on an error nothing changes.
pub fn morph_ribbon<S: Copy>(
    mesh: &mut Ribbon<S>,
    paths: &Vec<Vec<Point3<S>>>,
    uvs: &Vec<Uv<S>>,
) -> (done: Result<(), MorphError>)
    requires
        old(mesh).wf(),
    ensures
        final(mesh).wf(),
        final(mesh).rows == old(mesh).rows,
        final(mesh).cols == old(mesh).cols,
        final(mesh).indices@ == old(mesh).indices@,
        done == morph_outcome(
            old(mesh).rows as int,
            old(mesh).cols as int,
            paths@,
            uvs@.len() as int,
        ),
        done is Err ==> *final(mesh) == *old(mesh),
        done is Ok ==> final(mesh).positions@ == flattened(paths@, old(mesh).cols as int),
        done is Ok ==> final(mesh).uvs@ == uvs@,
{
    let rows = mesh.rows;
    let cols = mesh.cols;
    if !has_shape(paths, rows, cols) {
        return Err(MorphError::ShapeMismatch);
    }
    if uvs.len() != mesh.uvs.len() {
        return Err(MorphError::UvCountMismatch);
    }
    let mut i: usize = 0;
    while i < rows
        invariant
            rows == old(mesh).rows,
            cols == old(mesh).cols,
            old(mesh).wf(),
            is_grid(paths@, rows as int, cols as int),
            mesh.rows == rows,
            mesh.cols == cols,
            mesh.indices@ == old(mesh).indices@,
            mesh.uvs@ == old(mesh).uvs@,
            mesh.positions@.len() == rows * cols,
            i <= rows,
            forall|k: int|
                0 <= k < i * cols ==> mesh.positions@[k] == paths@[k / (cols as int)]@[k % (
                cols as int)],
        decreases rows - i,
    {
        let row = &paths[i];
        let mut j: usize = 0;
        while j < cols
            invariant
                rows == old(mesh).rows,
                cols == old(mesh).cols,
                old(mesh).wf(),
                is_grid(paths@, rows as int, cols as int),
                mesh.rows == rows,
                mesh.cols == cols,
                mesh.indices@ == old(mesh).indices@,
                mesh.uvs@ == old(mesh).uvs@,
                mesh.positions@.len() == rows * cols,
                i < rows,
                j <= cols,
                row == &paths@[i as int],
                forall|k: int|
                    0 <= k < i * cols + j ==> mesh.positions@[k] == paths@[k / (cols as int)]@[k
                        % (cols as int)],
            decreases cols - j,
        {
            proof {
                lemma_slot(i as int, j as int, cols as int);
                lemma_slot_bound(i as int, j as int, rows as int, cols as int);
            }
            mesh.positions.set(i * cols + j, row[j]);
            j += 1;
        }
        proof {
            lemma_slot_bound(i as int, 0, rows as int, cols as int);
        }
        i += 1;
    }
    assert(mesh.positions@ =~= flattened(paths@, cols as int));
    let mut k: usize = 0;
    while k < uvs.len()
        invariant
            old(mesh).wf(),
            mesh.rows == old(mesh).rows,
            mesh.cols == old(mesh).cols,
            mesh.indices@ == old(mesh).indices@,
            mesh.positions@ == flattened(paths@, old(mesh).cols as int),
            mesh.uvs@.len() == uvs@.len(),
            uvs@.len() == old(mesh).uvs@.len(),
            k <= uvs@.len(),
            forall|n: int| 0 <= n < k ==> mesh.uvs@[n] == uvs@[n],
        decreases uvs@.len() - k,
    {
        mesh.uvs.set(k, uvs[k]);
        k += 1;
    }
    assert(mesh.uvs@ =~= uvs@);
    Ok(())
}

} // verus!
