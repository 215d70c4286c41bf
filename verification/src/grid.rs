//! Rectangular grids stored as rows, and their row-major flattening.

use vstd::prelude::*;
use vstd::arithmetic::div_mod::lemma_fundamental_div_mod_converse;

verus! {

/// `paths` has `rows` rows of `cols` items each.
pub open spec fn is_grid<T>(paths: Seq<Vec<T>>, rows: int, cols: int) -> bool {
    &&& paths.len() == rows
    &&& forall|i: int| 0 <= i < rows ==> (#[trigger] paths[i])@.len() == cols
}

/// The items of a grid with `cols` columns in row-major order: slot
/// `i * cols + j` holds the item of row `i`, column `j`.
pub open spec fn flattened<T>(paths: Seq<Vec<T>>, cols: int) -> Seq<T> {
    Seq::new((paths.len() * cols) as nat, |k: int| paths[k / cols]@[k % cols])
}

/// Row `i`, column `j` of a grid with `cols` columns lies at slot
/// `i * cols + j`: dividing the slot by `cols` gives back the row, and the
/// remainder is the column.
pub proof fn lemma_slot(i: int, j: int, cols: int)
    requires
        0 <= i,
        0 <= j < cols,
    ensures
        (i * cols + j) / cols == i,
        (i * cols + j) % cols == j,
        i * cols + j >= 0,
{
    assert(i * cols >= 0) by (nonlinear_arith)
        requires
            i >= 0,
            cols > 0,
    ;
    lemma_fundamental_div_mod_converse(i * cols + j, cols, i, j);
}

/// A slot of row `i` lies below the slots of every later row.
pub proof fn lemma_slot_bound(i: int, j: int, rows: int, cols: int)
    requires
        0 <= i < rows,
        0 <= j < cols,
    ensures
        0 <= i * cols + j < rows * cols,
        (i + 1) * cols <= rows * cols,
        (i + 1) * cols == i * cols + cols,
{
    assert((i + 1) * cols <= rows * cols) by (nonlinear_arith)
        requires
            i + 1 <= rows,
            cols > 0,
    ;
    assert((i + 1) * cols == i * cols + cols) by (nonlinear_arith);
    assert(i * cols >= 0) by (nonlinear_arith)
        requires
            i >= 0,
            cols > 0,
    ;
}

/// Copies a grid into one row-major buffer.
pub fn flatten<T: Copy>(paths: &Vec<Vec<T>>, cols: usize) -> (flat: Vec<T>)
    requires
        is_grid(paths@, paths@.len() as int, cols as int),
        paths@.len() * cols <= usize::MAX,
    ensures
        flat@ == flattened(paths@, cols as int),
{
    let rows = paths.len();
    let mut flat: Vec<T> = Vec::new();
    let mut i: usize = 0;
    while i < rows
        invariant
            rows == paths@.len(),
            is_grid(paths@, rows as int, cols as int),
            rows * cols <= usize::MAX,
            i <= rows,
            flat@.len() == i * cols,
            forall|k: int| 0 <= k < flat@.len() ==> flat@[k] == paths@[k / (cols as int)]@[k % (cols as int)],
        decreases rows - i,
    {
        let row = &paths[i];
        let mut j: usize = 0;
        while j < cols
            invariant
                rows == paths@.len(),
                is_grid(paths@, rows as int, cols as int),
                rows * cols <= usize::MAX,
                i < rows,
                j <= cols,
                row == &paths@[i as int],
                flat@.len() == i * cols + j,
                forall|k: int| 0 <= k < flat@.len() ==> flat@[k] == paths@[k / (cols as int)]@[k % (cols as int)],
            decreases cols - j,
        {
            proof {
                lemma_slot(i as int, j as int, cols as int);
                lemma_slot_bound(i as int, j as int, rows as int, cols as int);
            }
            flat.push(row[j]);
            j += 1;
        }
        proof {
            assert((i + 1) * cols == i * cols + cols) by (nonlinear_arith);
        }
        i += 1;
    }
    assert(flat@ =~= flattened(paths@, cols as int));
    flat
}

/// Builds the grid whose item at row `r`, column `c` is `f(r, c)`, calling `f`
/// once per cell, row by row.
pub fn tabulate<T, F: Fn(usize, usize) -> T>(rows: usize, cols: usize, f: F) -> (grid: Vec<Vec<T>>)
    requires
        forall|r: usize, c: usize| r < rows && c < cols ==> call_requires(f, (r, c)),
    ensures
        is_grid(grid@, rows as int, cols as int),
        forall|r: int, c: int|
            0 <= r < rows && 0 <= c < cols ==> call_ensures(
                f,
                (r as usize, c as usize),
                #[trigger] grid@[r]@[c],
            ),
{
    let mut grid: Vec<Vec<T>> = Vec::new();
    let mut r: usize = 0;
    while r < rows
        invariant
            forall|r: usize, c: usize| r < rows && c < cols ==> call_requires(f, (r, c)),
            r <= rows,
            is_grid(grid@, r as int, cols as int),
            forall|a: int, c: int|
                0 <= a < r && 0 <= c < cols ==> call_ensures(
                    f,
                    (a as usize, c as usize),
                    #[trigger] grid@[a]@[c],
                ),
        decreases rows - r,
    {
        let mut row: Vec<T> = Vec::new();
        let mut c: usize = 0;
        while c < cols
            invariant
                forall|r: usize, c: usize| r < rows && c < cols ==> call_requires(f, (r, c)),
                r < rows,
                c <= cols,
                row@.len() == c,
                forall|b: int|
                    0 <= b < c ==> call_ensures(f, (r, b as usize), #[trigger] row@[b]),
            decreases cols - c,
        {
            let item = f(r, c);
            row.push(item);
            c += 1;
        }
        grid.push(row);
        r += 1;
    }
    grid
}

} // verus!
