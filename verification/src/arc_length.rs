//! Texture coordinates from arc lengths along the rows and columns of a grid
//! of points.
//!
//! Lengths are the caller's arithmetic. `extend(sum, a, b)` answers the
//! running length `sum` extended by the distance from `a` to `b`, and
//! `ratio(part, total)` answers `part` as a fraction of `total`. The
//! functions here fix which points are measured and which sums are divided.

use vstd::prelude::*;
use crate::geometry::{Point3, Uv};
use crate::grid::{is_grid, lemma_slot_bound};
use crate::ribbon::{grid_shape, grid_shape_of, RibbonError};

verus! {

/// `lengths` holds the running lengths along each row of `paths`: `zero` at
/// the first point of a row, and at every later point the length at the
/// point before it extended by the step between the two.
pub open spec fn runs_along_rows<S, D: Fn(S, Point3<S>, Point3<S>) -> S>(
    paths: Seq<Vec<Point3<S>>>,
    zero: S,
    extend: D,
    lengths: Seq<Vec<S>>,
    rows: int,
    cols: int,
) -> bool {
    &&& is_grid(lengths, rows, cols)
    &&& forall|i: int| 0 <= i < rows ==> (#[trigger] lengths[i])@[0] == zero
    &&& forall|i: int, j: int|
        0 <= i < rows && 1 <= j < cols ==> call_ensures(
            extend,
            (lengths[i]@[j - 1], paths[i]@[j - 1], paths[i]@[j]),
            #[trigger] lengths[i]@[j],
        )
}

/// `lengths` holds the running lengths down each column of `paths`: `zero`
/// in the first row, and in every later row the length in the row above
/// extended by the step between the two points.
pub open spec fn runs_along_columns<S, D: Fn(S, Point3<S>, Point3<S>) -> S>(
    paths: Seq<Vec<Point3<S>>>,
    zero: S,
    extend: D,
    lengths: Seq<Vec<S>>,
    rows: int,
    cols: int,
) -> bool {
    &&& is_grid(lengths, rows, cols)
    &&& forall|j: int| 0 <= j < cols ==> (#[trigger] lengths[0]@[j]) == zero
    &&& forall|i: int, j: int|
        1 <= i < rows && 0 <= j < cols ==> call_ensures(
            extend,
            (lengths[i - 1]@[j], paths[i - 1]@[j], paths[i]@[j]),
            #[trigger] lengths[i]@[j],
        )
}

/// `uvs` holds, for the point at row `i`, column `j`, in slot `i * cols + j`:
/// as `u` the running length along its row as a fraction of that row's total,
/// and as `v` the running length down its column as a fraction of that
/// column's total.
pub open spec fn normalised<S, R: Fn(S, S) -> S>(
    along_rows: Seq<Vec<S>>,
    along_columns: Seq<Vec<S>>,
    ratio: R,
    uvs: Seq<Uv<S>>,
    rows: int,
    cols: int,
) -> bool {
    &&& uvs.len() == rows * cols
    &&& normalised_rows(along_rows, along_columns, ratio, uvs, rows, rows, cols)
}

/// `uvs` is an arc-length parametrisation of the grid `paths`: it is
/// normalised from some running lengths along its rows and down its columns.
pub open spec fn arc_length_parametrised<
    S,
    D: Fn(S, Point3<S>, Point3<S>) -> S,
    R: Fn(S, S) -> S,
>(paths: Seq<Vec<Point3<S>>>, zero: S, extend: D, ratio: R, uvs: Seq<Uv<S>>) -> bool {
    let rows = paths.len() as int;
    let cols = paths[0]@.len() as int;
    exists|along_rows: Seq<Vec<S>>, along_columns: Seq<Vec<S>>|
        {
            &&& #[trigger] runs_along_rows(paths, zero, extend, along_rows, rows, cols)
            &&& #[trigger] runs_along_columns(paths, zero, extend, along_columns, rows, cols)
            &&& normalised(along_rows, along_columns, ratio, uvs, rows, cols)
        }
}

/// Accumulates the running lengths along each row of a grid.
pub fn row_run_lengths<S: Copy, D: Fn(S, Point3<S>, Point3<S>) -> S>(
    paths: &Vec<Vec<Point3<S>>>,
    cols: usize,
    zero: S,
    extend: &D,
) -> (lengths: Vec<Vec<S>>)
    requires
        cols >= 1,
        is_grid(paths@, paths@.len() as int, cols as int),
        forall|sum: S, a: Point3<S>, b: Point3<S>| call_requires(*extend, (sum, a, b)),
    ensures
        runs_along_rows(paths@, zero, *extend, lengths@, paths@.len() as int, cols as int),
{
    let rows = paths.len();
    let mut lengths: Vec<Vec<S>> = Vec::new();
    let mut i: usize = 0;
    while i < rows
        invariant
            rows == paths@.len(),
            cols >= 1,
            is_grid(paths@, rows as int, cols as int),
            forall|sum: S, a: Point3<S>, b: Point3<S>| call_requires(*extend, (sum, a, b)),
            i <= rows,
            runs_along_rows(paths@, zero, *extend, lengths@, i as int, cols as int),
        decreases rows - i,
    {
        let path = &paths[i];
        let mut run: Vec<S> = Vec::new();
        run.push(zero);
        let mut sum = zero;
        let mut j: usize = 1;
        while j < cols
            invariant
                rows == paths@.len(),
                cols >= 1,
                is_grid(paths@, rows as int, cols as int),
                forall|sum: S, a: Point3<S>, b: Point3<S>| call_requires(*extend, (sum, a, b)),
                i < rows,
                path == &paths@[i as int],
                1 <= j <= cols,
                run@.len() == j,
                run@[0] == zero,
                sum == run@[j - 1],
                forall|b: int|
                    1 <= b < j ==> call_ensures(
                        *extend,
                        (run@[b - 1], paths@[i as int]@[b - 1], paths@[i as int]@[b]),
                        #[trigger] run@[b],
                    ),
            decreases cols - j,
        {
            sum = extend(sum, path[j - 1], path[j]);
            run.push(sum);
            j += 1;
        }
        lengths.push(run);
        i += 1;
    }
    lengths
}

/// Accumulates the running lengths down each column of a grid.
pub fn column_run_lengths<S: Copy, D: Fn(S, Point3<S>, Point3<S>) -> S>(
    paths: &Vec<Vec<Point3<S>>>,
    cols: usize,
    zero: S,
    extend: &D,
) -> (lengths: Vec<Vec<S>>)
    requires
        paths@.len() >= 1,
        is_grid(paths@, paths@.len() as int, cols as int),
        forall|sum: S, a: Point3<S>, b: Point3<S>| call_requires(*extend, (sum, a, b)),
    ensures
        runs_along_columns(paths@, zero, *extend, lengths@, paths@.len() as int, cols as int),
{
    let rows = paths.len();
    let mut first: Vec<S> = Vec::new();
    let mut j: usize = 0;
    while j < cols
        invariant
            j <= cols,
            first@.len() == j,
            forall|b: int| 0 <= b < j ==> first@[b] == zero,
        decreases cols - j,
    {
        first.push(zero);
        j += 1;
    }
    let mut lengths: Vec<Vec<S>> = Vec::new();
    lengths.push(first);
    let mut i: usize = 1;
    while i < rows
        invariant
            rows == paths@.len(),
            is_grid(paths@, rows as int, cols as int),
            forall|sum: S, a: Point3<S>, b: Point3<S>| call_requires(*extend, (sum, a, b)),
            1 <= i <= rows,
            runs_along_columns(paths@, zero, *extend, lengths@, i as int, cols as int),
        decreases rows - i,
    {
        let above = &paths[i - 1];
        let path = &paths[i];
        let mut run: Vec<S> = Vec::new();
        let mut j: usize = 0;
        while j < cols
            invariant
                rows == paths@.len(),
                is_grid(paths@, rows as int, cols as int),
                forall|sum: S, a: Point3<S>, b: Point3<S>| call_requires(*extend, (sum, a, b)),
                1 <= i < rows,
                above == &paths@[i - 1],
                path == &paths@[i as int],
                is_grid(lengths@, i as int, cols as int),
                j <= cols,
                run@.len() == j,
                forall|b: int|
                    0 <= b < j ==> call_ensures(
                        *extend,
                        (lengths@[i - 1]@[b], paths@[i - 1]@[b], paths@[i as int]@[b]),
                        #[trigger] run@[b],
                    ),
            decreases cols - j,
        {
            let sum = extend(lengths[i - 1][j], above[j], path[j]);
            run.push(sum);
            j += 1;
        }
        lengths.push(run);
        i += 1;
    }
    lengths
}

/// Divides each running length by the total of its row or column.
pub fn normalise<S: Copy, R: Fn(S, S) -> S>(
    along_rows: &Vec<Vec<S>>,
    along_columns: &Vec<Vec<S>>,
    rows: usize,
    cols: usize,
    ratio: &R,
) -> (uvs: Vec<Uv<S>>)
    requires
        rows >= 1,
        cols >= 1,
        rows * cols <= usize::MAX,
        is_grid(along_rows@, rows as int, cols as int),
        is_grid(along_columns@, rows as int, cols as int),
        forall|part: S, total: S| call_requires(*ratio, (part, total)),
    ensures
        normalised(along_rows@, along_columns@, *ratio, uvs@, rows as int, cols as int),
{
    let mut uvs: Vec<Uv<S>> = Vec::new();
    let mut i: usize = 0;
    while i < rows
        invariant
            rows >= 1,
            cols >= 1,
            rows * cols <= usize::MAX,
            is_grid(along_rows@, rows as int, cols as int),
            is_grid(along_columns@, rows as int, cols as int),
            forall|part: S, total: S| call_requires(*ratio, (part, total)),
            i <= rows,
            normalised_rows(along_rows@, along_columns@, *ratio, uvs@, i as int, rows as int, cols as int),
            uvs@.len() == i * cols,
        decreases rows - i,
    {
        let mut j: usize = 0;
        while j < cols
            invariant
                rows >= 1,
                cols >= 1,
                rows * cols <= usize::MAX,
                is_grid(along_rows@, rows as int, cols as int),
                is_grid(along_columns@, rows as int, cols as int),
                forall|part: S, total: S| call_requires(*ratio, (part, total)),
                i < rows,
                j <= cols,
                uvs@.len() == i * cols + j,
                normalised_rows(
                    along_rows@,
                    along_columns@,
                    *ratio,
                    uvs@,
                    i as int,
                    rows as int,
                    cols as int,
                ),
                forall|b: int|
                    0 <= b < j ==> normalised_at(
                        along_rows@,
                        along_columns@,
                        *ratio,
                        #[trigger] uvs@[i * cols + b],
                        i as int,
                        b,
                        rows as int,
                        cols as int,
                    ),
            decreases cols - j,
        {
            proof {
                lemma_slot_bound(i as int, j as int, rows as int, cols as int);
                assert forall|a: int, c: int| 0 <= a < i && 0 <= c < cols implies 0 <= #[trigger] (a
                    * cols + c) < i * cols by {
                    lemma_slot_bound(a, c, i as int, cols as int);
                }
            }
            let u = ratio(along_rows[i][j], along_rows[i][cols - 1]);
            let v = ratio(along_columns[i][j], along_columns[rows - 1][j]);
            uvs.push(Uv { u, v });
            j += 1;
        }
        proof {
            assert((i + 1) * cols == i * cols + cols) by (nonlinear_arith);
        }
        i += 1;
    }
    uvs
}

/// What choosing the texture coordinates of a ribbon over `paths` yields
/// when `uv_count` coordinates are supplied: the shape of the grid, or the
/// first reason why there are none.
pub open spec fn uv_shape_of<T>(paths: Seq<Vec<T>>, uv_count: int) -> Result<(int, int), RibbonError> {
    match grid_shape_of(paths) {
        Err(e) => Err(e),
        Ok((rows, cols)) => if uv_count != 0 && uv_count != rows * cols {
            Err(RibbonError::UvCountMismatch)
        } else if uv_count == 0 && rows * cols > usize::MAX {
            Err(RibbonError::TooManyVertices)
        } else {
            Ok((rows, cols))
        },
    }
}

/// `uvs` are the texture coordinates of a ribbon over `paths`: the supplied
/// ones, unchanged, or, where none are supplied, an arc-length
/// parametrisation of the grid.
pub open spec fn textured<S, D: Fn(S, Point3<S>, Point3<S>) -> S, R: Fn(S, S) -> S>(
    paths: Seq<Vec<Point3<S>>>,
    map_uvs: Seq<Uv<S>>,
    zero: S,
    extend: D,
    ratio: R,
    uvs: Seq<Uv<S>>,
) -> bool {
    if map_uvs.len() == 0 {
        arc_length_parametrised(paths, zero, extend, ratio, uvs)
    } else {
        uvs == map_uvs
    }
}

/// Texture coordinates chosen for a grid whose supplied coordinates, if any,
/// are one per point come one per point.
pub proof fn lemma_textured_count<S, D: Fn(S, Point3<S>, Point3<S>) -> S, R: Fn(S, S) -> S>(
    paths: Seq<Vec<Point3<S>>>,
    map_uvs: Seq<Uv<S>>,
    zero: S,
    extend: D,
    ratio: R,
    uvs: Seq<Uv<S>>,
)
    requires
        paths.len() > 0,
        map_uvs.len() == 0 || map_uvs.len() == paths.len() * paths[0]@.len(),
        textured(paths, map_uvs, zero, extend, ratio, uvs),
    ensures
        uvs.len() == paths.len() * paths[0]@.len(),
{
}

/// Copies a buffer of texture coordinates.
fn copy_uvs<S: Copy>(uvs: &Vec<Uv<S>>) -> (copy: Vec<Uv<S>>)
    ensures
        copy@ == uvs@,
{
    let mut copy: Vec<Uv<S>> = Vec::new();
    let mut k: usize = 0;
    while k < uvs.len()
        invariant
            k <= uvs@.len(),
            copy@ == uvs@.take(k as int),
        decreases uvs@.len() - k,
    {
        copy.push(uvs[k]);
        assert(uvs@.take(k + 1) =~= uvs@.take(k as int).push(uvs@[k as int]));
        k += 1;
    }
    assert(uvs@.take(uvs@.len() as int) =~= uvs@);
    copy
}

/// The texture coordinates of a ribbon over a grid whose shape is known:
/// the supplied ones, copied, or the arc-length parametrisation.
pub fn choose_uvs<S: Copy, D: Fn(S, Point3<S>, Point3<S>) -> S, R: Fn(S, S) -> S>(
    paths: &Vec<Vec<Point3<S>>>,
    rows: usize,
    cols: usize,
    map_uvs: &Vec<Uv<S>>,
    zero: S,
    extend: &D,
    ratio: &R,
) -> (uvs: Vec<Uv<S>>)
    requires
        grid_shape_of(paths@) == Ok::<(int, int), RibbonError>((rows as int, cols as int)),
        map_uvs@.len() == 0 ==> rows * cols <= usize::MAX,
        forall|sum: S, a: Point3<S>, b: Point3<S>| call_requires(*extend, (sum, a, b)),
        forall|part: S, total: S| call_requires(*ratio, (part, total)),
    ensures
        textured(paths@, map_uvs@, zero, *extend, *ratio, uvs@),
{
    if map_uvs.len() != 0 {
        return copy_uvs(map_uvs);
    }
    let along_rows = row_run_lengths(paths, cols, zero, extend);
    let along_columns = column_run_lengths(paths, cols, zero, extend);
    normalise(&along_rows, &along_columns, rows, cols, ratio)
}

/// Chooses the texture coordinates of a ribbon over `paths`: those supplied
/// in `map_uvs`, unchanged and however many vertices there are, or, where
/// `map_uvs` is empty, one per point from arc lengths, with `u` growing along
/// each row and `v` down each column, each as a fraction of the whole row or
/// column.
pub fn ribbon_uvs<S: Copy, D: Fn(S, Point3<S>, Point3<S>) -> S, R: Fn(S, S) -> S>(
    paths: &Vec<Vec<Point3<S>>>,
    map_uvs: &Vec<Uv<S>>,
    zero: S,
    extend: &D,
    ratio: &R,
) -> (uvs: Result<Vec<Uv<S>>, RibbonError>)
    requires
        forall|sum: S, a: Point3<S>, b: Point3<S>| call_requires(*extend, (sum, a, b)),
        forall|part: S, total: S| call_requires(*ratio, (part, total)),
    ensures
        match uvs {
            Ok(uvs) => {
                &&& uv_shape_of(paths@, map_uvs@.len() as int) is Ok
                &&& textured(paths@, map_uvs@, zero, *extend, *ratio, uvs@)
                &&& map_uvs@.len() != 0 ==> uvs@ == map_uvs@
            },
            Err(e) => uv_shape_of(paths@, map_uvs@.len() as int) == Err::<(int, int), RibbonError>(e),
        },
{
    let (rows, cols) = match grid_shape(paths) {
        Ok(shape) => shape,
        Err(e) => { return Err(e); },
    };
    match rows.checked_mul(cols) {
        Some(count) => {
            if map_uvs.len() != 0 && map_uvs.len() != count {
                return Err(RibbonError::UvCountMismatch);
            }
        },
        None => {
            if map_uvs.len() != 0 {
                return Err(RibbonError::UvCountMismatch);
            }
            return Err(RibbonError::TooManyVertices);
        },
    }
    Ok(choose_uvs(paths, rows, cols, map_uvs, zero, extend, ratio))
}

/// The first `done` rows of `uvs` are normalised.
pub open spec fn normalised_rows<S, R: Fn(S, S) -> S>(
    along_rows: Seq<Vec<S>>,
    along_columns: Seq<Vec<S>>,
    ratio: R,
    uvs: Seq<Uv<S>>,
    done: int,
    rows: int,
    cols: int,
) -> bool {
    forall|i: int, j: int|
        0 <= i < done && 0 <= j < cols ==> normalised_at(
            along_rows,
            along_columns,
            ratio,
            #[trigger] uvs[i * cols + j],
            i,
            j,
            rows,
            cols,
        )
}

/// `uv` is the normalised texture coordinate of the point at row `i`,
/// column `j`.
pub open spec fn normalised_at<S, R: Fn(S, S) -> S>(
    along_rows: Seq<Vec<S>>,
    along_columns: Seq<Vec<S>>,
    ratio: R,
    uv: Uv<S>,
    i: int,
    j: int,
    rows: int,
    cols: int,
) -> bool {
    &&& call_ensures(ratio, (along_rows[i]@[j], along_rows[i]@[cols - 1]), uv.u)
    &&& call_ensures(ratio, (along_columns[i]@[j], along_columns[rows - 1]@[j]), uv.v)
}

} // verus!
