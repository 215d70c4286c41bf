//! The terrain window: a small mesh of fixed topology that is paged through
//! the height field as the viewpoint moves.
//!
//! Two conventions hold throughout. A window's size counts the cells along
//! one edge, so a window of size `w` has `w + 1` vertices per edge, shows
//! `(w + 1) * (w + 1)` samples and needs `1 <= w <= n` on a field with `n`
//! samples per axis; a window as large as the field wraps around its edge
//! and shows one row and one column twice. And steps are counted
//! in thresholds, not in cells: the distance between anchor and viewpoint is
//! divided by the threshold (cell size times tolerance), and each whole
//! threshold moves the offset by `tolerance` cells.

use std::rc::Rc;
use vstd::prelude::*;
use crate::field::HeightField;
use crate::geometry::{Point3, Uv};
use crate::grid::{flattened, is_grid, lemma_slot, lemma_slot_bound};
use crate::arc_length::arc_length_parametrised;
use crate::ribbon::{create_ribbon, has_shape, Ribbon};
use crate::torus::{modulo, wrapped};

verus! {

/// Why a window cannot be cut out of a grid of samples.
#[derive(Clone, Copy, Debug, PartialEq, Eq, Structural)]
pub enum WindowError {
    /// Not even one cell per edge.
    TooSmall,
    /// The samples do not form a square grid.
    NotSquare,
    /// More cells per edge than the field has samples per axis.
    TooLarge,
    /// More vertices than a 32-bit index can address.
    TooManyVertices,
}

/// The field row (or column) that window row (or column) `i` shows when
/// window row (or column) 0 shows field row (or column) `offset`.
pub open spec fn field_cell(offset: int, i: int, n: int) -> int {
    wrapped(offset + i, n)
}

/// The positions of a window of `width` vertices per edge whose first row and
/// column show field row `offset_z` and field column `offset_x`: slot
/// `i * width + j` holds the sample at field row `(offset_z + i) mod n`, field
/// column `(offset_x + j) mod n`.
pub open spec fn window_points<S>(
    coords: Seq<Vec<Point3<S>>>,
    offset_x: int,
    offset_z: int,
    width: int,
) -> Seq<Point3<S>> {
    let n = coords.len() as int;
    Seq::new(
        (width * width) as nat,
        |k: int| coords[field_cell(offset_z, k / width, n)]@[field_cell(offset_x, k % width, n)],
    )
}

/// The texture coordinates of the same window, taken from the row-major
/// coordinates `uvs` of a field with `n` samples per axis.
pub open spec fn window_uvs<S>(
    uvs: Seq<Uv<S>>,
    n: int,
    offset_x: int,
    offset_z: int,
    width: int,
) -> Seq<Uv<S>> {
    Seq::new(
        (width * width) as nat,
        |k: int| uvs[field_cell(offset_z, k / width, n) * n + field_cell(offset_x, k % width, n)],
    )
}

/// Where a window of `size` cells per edge starts when it is centred in a
/// grid of samples, or the first reason why it cannot be cut out.
pub open spec fn window_start_of<T>(coords: Seq<Vec<T>>, size: int) -> Result<int, WindowError> {
    let n = coords.len() as int;
    if size < 1 {
        Err(WindowError::TooSmall)
    } else if !is_grid(coords, n, n) {
        Err(WindowError::NotSquare)
    } else if size > n {
        Err(WindowError::TooLarge)
    } else if (size + 1) * (size + 1) > u32::MAX {
        Err(WindowError::TooManyVertices)
    } else {
        Ok(n / 2 - size / 2)
    }
}

/// Checks that a window of `size` cells per edge can be cut out of
/// `coords`, and finds the field row and column at which the centred window
/// starts.
pub fn window_start<T>(coords: &Vec<Vec<T>>, size: usize) -> (start: Result<usize, WindowError>)
    ensures
        match start {
            Ok(s) => window_start_of(coords@, size as int) == Ok::<int, WindowError>(s as int),
            Err(e) => window_start_of(coords@, size as int) == Err::<int, WindowError>(e),
        },
        start is Ok ==> size < 0xffff && start == Ok::<usize, WindowError>(
            (coords@.len() / 2 - size / 2) as usize,
        ),
{
    let n = coords.len();
    if size < 1 {
        return Err(WindowError::TooSmall);
    }
    if !has_shape(coords, n, n) {
        return Err(WindowError::NotSquare);
    }
    if size > n {
        return Err(WindowError::TooLarge);
    }
    if size >= 0xffff {
        assert((size + 1) * (size + 1) > u32::MAX) by (nonlinear_arith)
            requires
                size >= 0xffff,
        ;
        return Err(WindowError::TooManyVertices);
    }
    assert((size + 1) * (size + 1) <= u32::MAX) by (nonlinear_arith)
        requires
            size < 0xffff,
    ;
    Ok(n / 2 - size / 2)
}

/// Slot `k` of a window with `width` vertices per edge lies in window row
/// `k / width`, window column `k % width`, both below `width`.
pub proof fn lemma_window_slot(k: int, width: int)
    requires
        width > 0,
        0 <= k < width * width,
    ensures
        0 <= k / width < width,
        0 <= k % width < width,
        k == (k / width) * width + k % width,
{
    assert(0 <= k / width < width && 0 <= k % width < width && k == (k / width) * width + k % width)
        by (nonlinear_arith)
        requires
            width > 0,
            0 <= k < width * width,
    ;
}

/// Cuts a window of `width` by `width` points out of a square grid of samples,
/// wrapping around its edges: row `i`, column `j` of the result is the sample
/// at field row `(offset_z + i) mod n`, field column `(offset_x + j) mod n`.
pub fn window_paths<S: Copy>(
    coords: &Vec<Vec<Point3<S>>>,
    offset_x: usize,
    offset_z: usize,
    width: usize,
) -> (paths: Vec<Vec<Point3<S>>>)
    requires
        coords@.len() > 0,
        is_grid(coords@, coords@.len() as int, coords@.len() as int),
    ensures
        is_grid(paths@, width as int, width as int),
        forall|i: int, j: int|
            0 <= i < width && 0 <= j < width ==> (#[trigger] paths@[i]@[j]) == coords@[field_cell(
                offset_z as int,
                i,
                coords@.len() as int,
            )]@[field_cell(offset_x as int, j, coords@.len() as int)],
{
    let n = coords.len();
    let mut paths: Vec<Vec<Point3<S>>> = Vec::new();
    let mut i: usize = 0;
    while i < width
        invariant
            n == coords@.len(),
            n > 0,
            is_grid(coords@, n as int, n as int),
            i <= width,
            is_grid(paths@, i as int, width as int),
            forall|a: int, j: int|
                0 <= a < i && 0 <= j < width ==> (#[trigger] paths@[a]@[j]) == coords@[field_cell(
                    offset_z as int,
                    a,
                    n as int,
                )]@[field_cell(offset_x as int, j, n as int)],
        decreases width - i,
    {
        let map_i = modulo(offset_z as i128 + i as i128, n);
        let row = &coords[map_i];
        let mut path: Vec<Point3<S>> = Vec::new();
        let mut j: usize = 0;
        while j < width
            invariant
                n == coords@.len(),
                n > 0,
                is_grid(coords@, n as int, n as int),
                map_i == field_cell(offset_z as int, i as int, n as int),
                map_i < n,
                row == &coords@[map_i as int],
                j <= width,
                path@.len() == j,
                forall|b: int|
                    0 <= b < j ==> (#[trigger] path@[b]) == coords@[map_i as int]@[field_cell(
                        offset_x as int,
                        b,
                        n as int,
                    )],
            decreases width - j,
        {
            let map_j = modulo(offset_x as i128 + j as i128, n);
            path.push(row[map_j]);
            j += 1;
        }
        paths.push(path);
        i += 1;
    }
    paths
}

/// The texture coordinates of a window of `width` vertices per edge as one
/// row-major buffer, taken from the row-major coordinates `uvs` of a field
/// with `n` samples per axis.
pub fn window_uv_buffer<S: Copy>(
    uvs: &Vec<Uv<S>>,
    n: usize,
    offset_x: usize,
    offset_z: usize,
    width: usize,
) -> (buffer: Vec<Uv<S>>)
    requires
        n > 0,
        uvs@.len() == n * n,
        width * width <= usize::MAX,
    ensures
        buffer@ == window_uvs(uvs@, n as int, offset_x as int, offset_z as int, width as int),
{
    let uv_count = uvs.len();
    let mut buffer: Vec<Uv<S>> = Vec::new();
    let mut i: usize = 0;
    while i < width
        invariant
            n > 0,
            uvs@.len() == n * n,
            uv_count == n * n,
            width * width <= usize::MAX,
            i <= width,
            buffer@.len() == i * width,
            forall|k: int|
                0 <= k < buffer@.len() ==> buffer@[k] == uvs@[field_cell(
                    offset_z as int,
                    k / (width as int),
                    n as int,
                ) * n + field_cell(offset_x as int, k % (width as int), n as int)],
        decreases width - i,
    {
        let map_i = modulo(offset_z as i128 + i as i128, n);
        let mut j: usize = 0;
        while j < width
            invariant
                n > 0,
                uvs@.len() == n * n,
                uv_count == n * n,
                width * width <= usize::MAX,
                i < width,
                j <= width,
                map_i == field_cell(offset_z as int, i as int, n as int),
                map_i < n,
                buffer@.len() == i * width + j,
                forall|k: int|
                    0 <= k < buffer@.len() ==> buffer@[k] == uvs@[field_cell(
                        offset_z as int,
                        k / (width as int),
                        n as int,
                    ) * n + field_cell(offset_x as int, k % (width as int), n as int)],
            decreases width - j,
        {
            let map_j = modulo(offset_x as i128 + j as i128, n);
            proof {
                lemma_slot(i as int, j as int, width as int);
                lemma_slot_bound(map_i as int, map_j as int, n as int, n as int);
            }
            buffer.push(uvs[map_i * n + map_j]);
            j += 1;
        }
        proof {
            lemma_slot_bound(i as int, 0, width as int, width as int);
        }
        i += 1;
    }
    assert(buffer@ =~= window_uvs(
        uvs@,
        n as int,
        offset_x as int,
        offset_z as int,
        width as int,
    ));
    buffer
}

/// Flattening the rows that `window_paths` cuts out gives the window's
/// position buffer.
pub proof fn lemma_window_paths_flatten<S>(
    coords: Seq<Vec<Point3<S>>>,
    paths: Seq<Vec<Point3<S>>>,
    offset_x: int,
    offset_z: int,
    width: int,
)
    requires
        width > 0,
        is_grid(paths, width, width),
        forall|i: int, j: int|
            0 <= i < width && 0 <= j < width ==> (#[trigger] paths[i]@[j]) == coords[field_cell(
                offset_z,
                i,
                coords.len() as int,
            )]@[field_cell(offset_x, j, coords.len() as int)],
    ensures
        flattened(paths, width) == window_points(coords, offset_x, offset_z, width),
{
    assert forall|k: int| 0 <= k < width * width implies flattened(paths, width)[k] == window_points(
        coords,
        offset_x,
        offset_z,
        width,
    )[k] by {
        lemma_window_slot(k, width);
        assert(paths[k / width]@[k % width] == coords[field_cell(
            offset_z,
            k / width,
            coords.len() as int,
        )]@[field_cell(offset_x, k % width, coords.len() as int)]);
    }
    assert(flattened(paths, width) =~= window_points(coords, offset_x, offset_z, width));
}

/// Rewrites the vertex data of a square window mesh in place, so that it
/// shows the part of `map` that starts at field column `offset_x` and field
/// row `offset_z`. Nothing is allocated and the index buffer is not touched.
pub fn fill_window<S: Copy>(
    mesh: &mut Ribbon<S>,
    map: &HeightField<S>,
    offset_x: usize,
    offset_z: usize,
)
    requires
        old(mesh).wf(),
        map.wf(),
        old(mesh).rows == old(mesh).cols,
    ensures
        final(mesh).wf(),
        final(mesh).rows == old(mesh).rows,
        final(mesh).cols == old(mesh).cols,
        final(mesh).indices@ == old(mesh).indices@,
        final(mesh).positions@ == window_points(
            map.coords@,
            offset_x as int,
            offset_z as int,
            old(mesh).rows as int,
        ),
        final(mesh).uvs@ == (if map.has_uvs() {
            window_uvs(
                map.uvs@,
                map.subdivisions as int,
                offset_x as int,
                offset_z as int,
                old(mesh).rows as int,
            )
        } else {
            old(mesh).uvs@
        }),
{
    let width = mesh.rows;
    let n = map.subdivisions;
    let with_uvs = map.uvs.len() != 0;
    let uv_count = map.uvs.len();
    let mut i: usize = 0;
    while i < width
        invariant
            old(mesh).wf(),
            map.wf(),
            n == map.subdivisions,
            width == old(mesh).rows,
            width == old(mesh).cols,
            with_uvs == map.has_uvs(),
            uv_count == map.uvs@.len(),
            mesh.rows == width,
            mesh.cols == width,
            mesh.indices@ == old(mesh).indices@,
            mesh.positions@.len() == width * width,
            mesh.uvs@.len() == old(mesh).uvs@.len(),
            !with_uvs ==> mesh.uvs@ == old(mesh).uvs@,
            old(mesh).uvs@.len() == width * width,
            i <= width,
            forall|k: int|
                0 <= k < i * width ==> mesh.positions@[k] == map.coords@[field_cell(
                    offset_z as int,
                    k / (width as int),
                    n as int,
                )]@[field_cell(offset_x as int, k % (width as int), n as int)],
            with_uvs ==> forall|k: int|
                0 <= k < i * width ==> mesh.uvs@[k] == map.uvs@[field_cell(
                    offset_z as int,
                    k / (width as int),
                    n as int,
                ) * n + field_cell(offset_x as int, k % (width as int), n as int)],
        decreases width - i,
    {
        let map_i = modulo(offset_z as i128 + i as i128, n);
        let mut j: usize = 0;
        while j < width
            invariant
                old(mesh).wf(),
                map.wf(),
                n == map.subdivisions,
                width == old(mesh).rows,
                width == old(mesh).cols,
                    with_uvs == map.has_uvs(),
                uv_count == map.uvs@.len(),
                mesh.rows == width,
                mesh.cols == width,
                mesh.indices@ == old(mesh).indices@,
                mesh.positions@.len() == width * width,
                mesh.uvs@.len() == old(mesh).uvs@.len(),
                !with_uvs ==> mesh.uvs@ == old(mesh).uvs@,
                old(mesh).uvs@.len() == width * width,
                i < width,
                j <= width,
                map_i == field_cell(offset_z as int, i as int, n as int),
                map_i < n,
                forall|k: int|
                    0 <= k < i * width + j ==> mesh.positions@[k] == map.coords@[field_cell(
                        offset_z as int,
                        k / (width as int),
                        n as int,
                    )]@[field_cell(offset_x as int, k % (width as int), n as int)],
                with_uvs ==> forall|k: int|
                    0 <= k < i * width + j ==> mesh.uvs@[k] == map.uvs@[field_cell(
                        offset_z as int,
                        k / (width as int),
                        n as int,
                    ) * n + field_cell(offset_x as int, k % (width as int), n as int)],
            decreases width - j,
        {
            let map_j = modulo(offset_x as i128 + j as i128, n);
            proof {
                lemma_slot(i as int, j as int, width as int);
                lemma_slot_bound(i as int, j as int, width as int, width as int);
                lemma_slot_bound(map_i as int, map_j as int, n as int, n as int);
            }
            let slot = i * width + j;
            let point = map.coords[map_i][map_j];
            mesh.positions.set(slot, point);
            if with_uvs {
                let uv = map.uvs[map_i * n + map_j];
                mesh.uvs.set(slot, uv);
            }
            j += 1;
        }
        proof {
            lemma_slot_bound(i as int, 0, width as int, width as int);
        }
        i += 1;
    }
    assert(mesh.positions@ =~= window_points(
        map.coords@,
        offset_x as int,
        offset_z as int,
        width as int,
    ));
    if with_uvs {
        assert(mesh.uvs@ =~= window_uvs(
            map.uvs@,
            n as int,
            offset_x as int,
            offset_z as int,
            width as int,
        ));
    }
}

/// `paths` is the window of `width` by `width` vertices that starts at field
/// column `offset_x` and field row `offset_z`, as rows of points.
pub open spec fn is_window<S>(
    coords: Seq<Vec<Point3<S>>>,
    offset_x: int,
    offset_z: int,
    width: int,
    paths: Seq<Vec<Point3<S>>>,
) -> bool {
    &&& is_grid(paths, width, width)
    &&& forall|i: int, j: int|
        0 <= i < width && 0 <= j < width ==> (#[trigger] paths[i]@[j]) == coords[field_cell(
            offset_z,
            i,
            coords.len() as int,
        )]@[field_cell(offset_x, j, coords.len() as int)]
}

/// `uvs` are the texture coordinates of the mesh of a window of `width` by
/// `width` vertices: the field's own coordinates of the samples shown, or,
/// for a field without any, an arc-length parametrisation of the window.
pub open spec fn window_textured<S, D: Fn(S, Point3<S>, Point3<S>) -> S, R: Fn(S, S) -> S>(
    map: HeightField<S>,
    offset_x: int,
    offset_z: int,
    width: int,
    zero: S,
    extend: D,
    ratio: R,
    uvs: Seq<Uv<S>>,
) -> bool {
    if map.uvs@.len() != 0 {
        uvs == window_uvs(map.uvs@, map.subdivisions as int, offset_x, offset_z, width)
    } else {
        exists|paths: Seq<Vec<Point3<S>>>|
            {
                &&& #[trigger] is_window(map.coords@, offset_x, offset_z, width, paths)
                &&& arc_length_parametrised(paths, zero, extend, ratio, uvs)
            }
    }
}

/// A window of `size` by `size` cells onto a shared height field.
#[derive(Debug)]
pub struct Terrain<S> {
    /// The field that the window pages through.
    pub map: Rc<HeightField<S>>,
    /// Number of cells per edge of the window; it has `size + 1` vertices
    /// per edge.
    pub size: usize,
    /// The window's mesh; its buffers are rewritten in place on every shift.
    pub mesh: Ribbon<S>,
    /// World-space anchor of the window.
    pub position: Point3<S>,
    /// How many field cells the viewpoint may cross, per axis, before the
    /// window shifts.
    pub sub_tolerance: i32,
    /// The latest viewpoint.
    pub camera_pos: Point3<S>,
    /// The field column that window column 0 shows.
    pub delta_sub_x: usize,
    /// The field row that window row 0 shows.
    pub delta_sub_z: usize,
}

/// The offset that follows `offset` once `crossed` steps of `tolerance` cells
/// each have been taken on a field with `n` cells per axis; an axis that did
/// not cross keeps its offset.
pub open spec fn shifted_offset(offset: int, crossed: Option<i32>, tolerance: int, n: int) -> int {
    match crossed {
        Some(c) => wrapped(offset + c * tolerance, n),
        None => offset,
    }
}

impl<S: Copy> Terrain<S> {
    /// The window fits the field, both offsets name field cells, and the mesh
    /// has the window's shape.
    pub open spec fn wf_layout(&self) -> bool {
        &&& self.map.wf()
        &&& 1 <= self.size <= self.map.subdivisions
        &&& self.delta_sub_x < self.map.subdivisions
        &&& self.delta_sub_z < self.map.subdivisions
        &&& self.mesh.wf()
        &&& self.mesh.rows == self.size + 1
        &&& self.mesh.cols == self.size + 1
    }

    /// The mesh buffers hold exactly the part of the field that the offsets
    /// select.
    pub open spec fn shows_window(&self) -> bool {
        &&& self.mesh.positions@ == window_points(
            self.map.coords@,
            self.delta_sub_x as int,
            self.delta_sub_z as int,
            self.size + 1,
        )
        &&& self.map.has_uvs() ==> self.mesh.uvs@ == window_uvs(
            self.map.uvs@,
            self.map.subdivisions as int,
            self.delta_sub_x as int,
            self.delta_sub_z as int,
            self.size + 1,
        )
    }

    /// The window is laid out for its field and shows what its offsets select.
    pub open spec fn wf(&self) -> bool {
        self.wf_layout() && self.shows_window()
    }

    /// Builds the mesh of a window of `size` cells per edge, centred in
    /// `map`: the window has `size + 1` vertices per edge and starts at field
    /// row and column `n / 2 - size / 2`. Its texture coordinates are the
    /// field's where it carries any, and else computed from arc lengths as
    /// `create_ribbon` does.
    pub fn create_cpu_mesh<D: Fn(S, Point3<S>, Point3<S>) -> S, R: Fn(S, S) -> S>(
        map: &HeightField<S>,
        size: usize,
        zero: S,
        extend: &D,
        ratio: &R,
    ) -> (mesh: Result<Ribbon<S>, WindowError>)
        requires
            map.wf(),
            forall|sum: S, a: Point3<S>, b: Point3<S>| call_requires(*extend, (sum, a, b)),
            forall|part: S, total: S| call_requires(*ratio, (part, total)),
        ensures
            match mesh {
                Ok(m) => {
                    let start = map.subdivisions / 2 - size / 2;
                    &&& window_start_of(map.coords@, size as int) == Ok::<int, WindowError>(start)
                    &&& m.wf()
                    &&& m.rows == size + 1
                    &&& m.cols == size + 1
                    &&& m.positions@ == window_points(map.coords@, start, start, size + 1)
                    &&& window_textured(*map, start, start, size + 1, zero, *extend, *ratio, m.uvs@)
                },
                Err(e) => window_start_of(map.coords@, size as int) == Err::<int, WindowError>(e),
            },
    {
        let start = match window_start(&map.coords, size) {
            Ok(start) => start,
            Err(e) => { return Err(e); },
        };
        let n = map.subdivisions;
        let width = size + 1;
        let paths = window_paths(&map.coords, start, start, width);
        let uvs = if map.uvs.len() != 0 {
            window_uv_buffer(&map.uvs, n, start, start, width)
        } else {
            Vec::new()
        };
        proof {
            lemma_window_paths_flatten(map.coords@, paths@, start as int, start as int, width as int);
            assert(is_window(map.coords@, start as int, start as int, width as int, paths@));
            assert(width * width >= 1) by (nonlinear_arith)
                requires
                    width >= 1,
            ;
        }
        match create_ribbon(&paths, &uvs, zero, extend, ratio) {
            Ok(m) => Ok(m),
            Err(_) => {
                assert(false);
                Err(WindowError::TooManyVertices)
            },
        }
    }

    /// Binds a window of `size` cells per edge to `map`, centred in the
    /// field and anchored at `viewpoint`. The mesh is built as
    /// `create_cpu_mesh` does.
    pub fn new<D: Fn(S, Point3<S>, Point3<S>) -> S, R: Fn(S, S) -> S>(
        map: Rc<HeightField<S>>,
        size: usize,
        sub_tolerance: i32,
        viewpoint: Point3<S>,
        zero: S,
        extend: &D,
        ratio: &R,
    ) -> (terrain: Result<Self, WindowError>)
        requires
            map.wf(),
            forall|sum: S, a: Point3<S>, b: Point3<S>| call_requires(*extend, (sum, a, b)),
            forall|part: S, total: S| call_requires(*ratio, (part, total)),
        ensures
            match terrain {
                Ok(t) => {
                    &&& window_start_of(map.coords@, size as int) == Ok::<int, WindowError>(
                        t.delta_sub_x as int,
                    )
                    &&& t.wf()
                    &&& t.map == map
                    &&& t.size == size
                    &&& t.sub_tolerance == sub_tolerance
                    &&& t.position == viewpoint
                    &&& t.camera_pos == viewpoint
                    &&& t.delta_sub_z == t.delta_sub_x
                    &&& window_textured(
                        *map,
                        t.delta_sub_x as int,
                        t.delta_sub_z as int,
                        size + 1,
                        zero,
                        *extend,
                        *ratio,
                        t.mesh.uvs@,
                    )
                },
                Err(e) => window_start_of(map.coords@, size as int) == Err::<int, WindowError>(e),
            },
    {
        let mesh = match Self::create_cpu_mesh(&map, size, zero, extend, ratio) {
            Ok(mesh) => mesh,
            Err(e) => { return Err(e); },
        };
        let start = map.subdivisions / 2 - size / 2;
        Ok(
            Terrain {
                map,
                size,
                mesh,
                position: viewpoint,
                sub_tolerance,
                camera_pos: viewpoint,
                delta_sub_x: start,
                delta_sub_z: start,
            },
        )
    }

    /// The state `after` is what follows `self` when the viewpoint moves to
    /// `viewpoint` and has crossed `crossed_x` and `crossed_z` steps on the two
    /// axes (`None`: the axis stayed within its threshold).
    ///
    /// The viewpoint is always recorded. If neither axis crossed, nothing
    /// else changes. Otherwise each offset advances by its steps times the
    /// tolerance and is wrapped into the field, the anchor takes the
    /// viewpoint's coordinate on each axis that crossed, and the mesh shows
    /// what the new offsets select (its texture coordinates stay as they
    /// are where the field carries none).
    pub open spec fn stepped_to(
        &self,
        viewpoint: Point3<S>,
        crossed_x: Option<i32>,
        crossed_z: Option<i32>,
        after: Self,
    ) -> bool {
        let n = self.map.subdivisions as int;
        &&& after.map == self.map
        &&& after.size == self.size
        &&& after.sub_tolerance == self.sub_tolerance
        &&& after.camera_pos == viewpoint
        &&& after.mesh.rows == self.mesh.rows
        &&& after.mesh.cols == self.mesh.cols
        &&& after.mesh.indices@ == self.mesh.indices@
        &&& if crossed_x is Some || crossed_z is Some {
            &&& after.delta_sub_x == shifted_offset(
                self.delta_sub_x as int,
                crossed_x,
                self.sub_tolerance as int,
                n,
            )
            &&& after.delta_sub_z == shifted_offset(
                self.delta_sub_z as int,
                crossed_z,
                self.sub_tolerance as int,
                n,
            )
            &&& after.position.x == (if crossed_x is Some {
                viewpoint.x
            } else {
                self.position.x
            })
            &&& after.position.y == self.position.y
            &&& after.position.z == (if crossed_z is Some {
                viewpoint.z
            } else {
                self.position.z
            })
            &&& after.shows_window()
            &&& !self.map.has_uvs() ==> after.mesh.uvs@ == self.mesh.uvs@
        } else {
            &&& after.delta_sub_x == self.delta_sub_x
            &&& after.delta_sub_z == self.delta_sub_z
            &&& after.position == self.position
            &&& after.mesh == self.mesh
        }
    }

    /// The state `after` follows `self` for some pair of answers that
    /// `crossing` may give when asked about the x axis and the z axis, each
    /// time with the anchor's and the viewpoint's coordinate; `moved` says
    /// whether either answer was a crossing.
    pub open spec fn updated_by<F: Fn(S, S) -> Option<i32>>(
        &self,
        crossing: F,
        viewpoint: Point3<S>,
        after: Self,
        moved: bool,
    ) -> bool {
        exists|crossed_x: Option<i32>, crossed_z: Option<i32>|
            {
                &&& #[trigger] call_ensures(crossing, (self.position.x, viewpoint.x), crossed_x)
                &&& #[trigger] call_ensures(crossing, (self.position.z, viewpoint.z), crossed_z)
                &&& self.stepped_to(viewpoint, crossed_x, crossed_z, after)
                &&& moved == (crossed_x is Some || crossed_z is Some)
            }
    }

    /// A window that is well formed shows, at window row `i` and window
    /// column `j`, the sample (and, where the field carries them, the texture
    /// coordinate) of the field cell that modulo indexing selects.
    pub proof fn lemma_shows_field_cells(&self, i: int, j: int)
        requires
            self.wf(),
            0 <= i <= self.size,
            0 <= j <= self.size,
        ensures
            0 <= i * (self.size + 1) + j < self.mesh.positions@.len(),
            0 <= (self.delta_sub_z + i) % (self.map.subdivisions as int) < self.map.subdivisions,
            0 <= (self.delta_sub_x + j) % (self.map.subdivisions as int) < self.map.subdivisions,
            self.mesh.positions@[i * (self.size + 1) + j] == self.map.sample(
                (self.delta_sub_z + i) % (self.map.subdivisions as int),
                (self.delta_sub_x + j) % (self.map.subdivisions as int),
            ),
            self.map.has_uvs() ==> self.mesh.uvs@[i * (self.size + 1) + j] == self.map.sample_uv(
                (self.delta_sub_z + i) % (self.map.subdivisions as int),
                (self.delta_sub_x + j) % (self.map.subdivisions as int),
            ),
    {
        lemma_slot(i, j, self.size + 1);
        lemma_slot_bound(i, j, self.size + 1, self.size + 1);
    }

    /// While the viewpoint stays within the threshold on both axes, a step
    /// writes nothing: mesh, offsets and anchor are what they were.
    pub proof fn lemma_stable_step(&self, viewpoint: Point3<S>, after: Self)
        requires
            self.stepped_to(viewpoint, None, None, after),
        ensures
            after.mesh == self.mesh,
            after.delta_sub_x == self.delta_sub_x,
            after.delta_sub_z == self.delta_sub_z,
            after.position == self.position,
    {
    }

    /// A step that crosses on the x axis alone moves the x offset by the
    /// crossed steps times the tolerance, modulo the field size, and leaves
    /// the z offset where it was.
    pub proof fn lemma_step_on_x(&self, viewpoint: Point3<S>, crossed: i32, after: Self)
        requires
            self.stepped_to(viewpoint, Some(crossed), None, after),
        ensures
            after.delta_sub_x == (self.delta_sub_x + crossed * self.sub_tolerance) % (
            self.map.subdivisions as int),
            after.delta_sub_z == self.delta_sub_z,
    {
    }

    /// The offset that follows `offset` after `crossed` steps.
    fn advance(offset: usize, crossed: Option<i32>, tolerance: i32, n: usize) -> (next: usize)
        requires
            0 < n,
            offset < n,
        ensures
            next == shifted_offset(offset as int, crossed, tolerance as int, n as int),
            next < n,
    {
        match crossed {
            Some(c) => {
                assert(-0x4000_0000_0000_0000 <= c * tolerance <= 0x4000_0000_0000_0000)
                    by (nonlinear_arith)
                    requires
                        -0x8000_0000 <= c <= 0x7fff_ffff,
                        -0x8000_0000 <= tolerance <= 0x7fff_ffff,
                ;
                modulo(offset as i128 + c as i128 * tolerance as i128, n)
            },
            None => offset,
        }
    }

    /// Takes the step that the crossings call for: records the viewpoint
    /// and, if either axis crossed its threshold, moves the offsets and the
    /// anchor and rewrites the mesh buffers in place. Answers whether the
    /// window moved.
    pub fn shift(
        &mut self,
        viewpoint: Point3<S>,
        crossed_x: Option<i32>,
        crossed_z: Option<i32>,
    ) -> (moved: bool)
        requires
            old(self).wf(),
        ensures
            final(self).wf(),
            old(self).stepped_to(viewpoint, crossed_x, crossed_z, *final(self)),
            moved == (crossed_x is Some || crossed_z is Some),
    {
        self.camera_pos = viewpoint;
        if crossed_x.is_none() && crossed_z.is_none() {
            return false;
        }
        let n = self.map.subdivisions;
        self.delta_sub_x = Self::advance(self.delta_sub_x, crossed_x, self.sub_tolerance, n);
        self.delta_sub_z = Self::advance(self.delta_sub_z, crossed_z, self.sub_tolerance, n);
        if crossed_x.is_some() {
            self.position.x = viewpoint.x;
        }
        if crossed_z.is_some() {
            self.position.z = viewpoint.z;
        }
        self.update_mesh();
        true
    }

    /// Follows the viewpoint for one tick.
    ///
    /// Distances are the caller's arithmetic: `crossing` is asked once per
    /// axis, x first, with the anchor's and the viewpoint's coordinate on
    /// that axis. It is meant to answer `None` while the two lie within the
    /// threshold (cell size times tolerance) of each other, and otherwise
    /// the signed number of thresholds from the viewpoint to the anchor,
    /// truncated toward zero. The step that its answers call for is then
    /// taken as `shift` does; when both are `None` nothing but the recorded
    /// viewpoint changes.
    pub fn update<F: Fn(S, S) -> Option<i32>>(&mut self, viewpoint: Point3<S>, crossing: F) -> (moved:
        bool)
        requires
            old(self).wf(),
            forall|origin: S, view: S| call_requires(crossing, (origin, view)),
        ensures
            final(self).wf(),
            old(self).updated_by(crossing, viewpoint, *final(self), moved),
            !moved ==> final(self).mesh == old(self).mesh,
    {
        let crossed_x = crossing(self.position.x, viewpoint.x);
        let crossed_z = crossing(self.position.z, viewpoint.z);
        self.shift(viewpoint, crossed_x, crossed_z)
    }

    /// Rewrites the mesh buffers in place so that they show what the current
    /// offsets select. The index buffer and everything but the mesh's vertex
    /// data stay as they are.
    pub fn update_mesh(&mut self)
        requires
            old(self).wf_layout(),
        ensures
            final(self).wf(),
            final(self).map == old(self).map,
            final(self).size == old(self).size,
            final(self).position == old(self).position,
            final(self).sub_tolerance == old(self).sub_tolerance,
            final(self).camera_pos == old(self).camera_pos,
            final(self).delta_sub_x == old(self).delta_sub_x,
            final(self).delta_sub_z == old(self).delta_sub_z,
            final(self).mesh.indices@ == old(self).mesh.indices@,
            !old(self).map.has_uvs() ==> final(self).mesh.uvs@ == old(self).mesh.uvs@,
    {
        fill_window(&mut self.mesh, &self.map, self.delta_sub_x, self.delta_sub_z);
    }
}

} // verus!
