//! Terrain building blocks over bare grids of samples: lattice sampling for
//! procedural fields, and meshes of a whole grid or of a window centred in it.

use vstd::prelude::*;
use crate::geometry::{Point3, Uv};
use crate::grid::{flattened, is_grid, tabulate};
use crate::arc_length::arc_length_parametrised;
use crate::ribbon::{create_ribbon, ribbon_shape_of, Ribbon, RibbonError};
use crate::window::{
    is_window, lemma_window_paths_flatten, window_paths, window_points, window_start,
    window_start_of, WindowError,
};

verus! {

/// `point` is what `place` may answer at column `i` of row `j` for some
/// value that `noise` may answer at lattice point `(j, i)`.
pub open spec fn placed<S, N: Fn(usize, usize) -> S, P: Fn(usize, usize, S) -> Point3<S>>(
    noise: N,
    place: P,
    i: usize,
    j: usize,
    point: Point3<S>,
) -> bool {
    exists|n: S| #[trigger] call_ensures(noise, (j, i), n) && call_ensures(place, (i, j, n), point)
}

/// `paths` is a procedural field over a `width` by `height` domain: a grid
/// whose row `j`, column `i` holds the point placed at `(i, j)` for the noise
/// sampled at `(j, i)`.
pub open spec fn sampled<S, N: Fn(usize, usize) -> S, P: Fn(usize, usize, S) -> Point3<S>>(
    width: usize,
    height: usize,
    noise: N,
    place: P,
    paths: Seq<Vec<Point3<S>>>,
) -> bool {
    &&& is_grid(paths, width as int, height as int)
    &&& forall|j: int, i: int|
        0 <= j < width && 0 <= i < height ==> placed(
            noise,
            place,
            i as usize,
            j as usize,
            #[trigger] paths[j]@[i],
        )
}

/// Procedural construction is deterministic: where the noise and the
/// placement each answer one value per input, any two fields built over the
/// same domain agree sample by sample.
pub proof fn lemma_create_map_deterministic<
    S,
    N: Fn(usize, usize) -> S,
    P: Fn(usize, usize, S) -> Point3<S>,
>(
    width: usize,
    height: usize,
    noise: N,
    place: P,
    first: Seq<Vec<Point3<S>>>,
    second: Seq<Vec<Point3<S>>>,
)
    requires
        forall|x: usize, y: usize, a: S, b: S|
            call_ensures(noise, (x, y), a) && call_ensures(noise, (x, y), b) ==> a == b,
        forall|i: usize, j: usize, n: S, p: Point3<S>, q: Point3<S>|
            call_ensures(place, (i, j, n), p) && call_ensures(place, (i, j, n), q) ==> p == q,
        sampled(width, height, noise, place, first),
        sampled(width, height, noise, place, second),
    ensures
        first.len() == second.len(),
        forall|j: int, i: int|
            0 <= j < width && 0 <= i < height ==> (#[trigger] first[j]@[i]) == second[j]@[i],
        forall|j: int| 0 <= j < width ==> (#[trigger] first[j])@ == second[j]@,
{
    assert forall|j: int, i: int| 0 <= j < width && 0 <= i < height implies (
    #[trigger] first[j]@[i]) == second[j]@[i] by {
        assert(placed(noise, place, i as usize, j as usize, first[j]@[i]));
        assert(placed(noise, place, i as usize, j as usize, second[j]@[i]));
    }
    assert forall|j: int| 0 <= j < width implies (#[trigger] first[j])@ == second[j]@ by {
        assert(first[j]@ =~= second[j]@);
    }
}

/// Noise sampling is deterministic: where the noise answers one value per
/// lattice point, any two grids sampled over the same domain agree entry by
/// entry.
pub proof fn lemma_create_noise_deterministic<S, N: Fn(usize, usize) -> S>(
    width: usize,
    height: usize,
    noise: N,
    first: Seq<Vec<S>>,
    second: Seq<Vec<S>>,
)
    requires
        forall|x: usize, y: usize, a: S, b: S|
            call_ensures(noise, (x, y), a) && call_ensures(noise, (x, y), b) ==> a == b,
        noise_sampled(width, height, noise, first),
        noise_sampled(width, height, noise, second),
    ensures
        first.len() == second.len(),
        forall|x: int| 0 <= x < width ==> (#[trigger] first[x])@ == second[x]@,
{
    assert forall|x: int| 0 <= x < width implies (#[trigger] first[x])@ == second[x]@ by {
        assert forall|y: int| 0 <= y < height implies first[x]@[y] == second[x]@[y] by {
            assert(call_ensures(noise, (x as usize, y as usize), first[x]@[y]));
            assert(call_ensures(noise, (x as usize, y as usize), second[x]@[y]));
        }
        assert(first[x]@ =~= second[x]@);
    }
}

/// `data` is the noise over a `width` by `height` domain: entry `[x][y]` is
/// what `noise` may answer at lattice point `(x, y)`.
pub open spec fn noise_sampled<S, N: Fn(usize, usize) -> S>(
    width: usize,
    height: usize,
    noise: N,
    data: Seq<Vec<S>>,
) -> bool {
    &&& is_grid(data, width as int, height as int)
    &&& forall|x: int, y: int|
        0 <= x < width && 0 <= y < height ==> call_ensures(
            noise,
            (x as usize, y as usize),
            #[trigger] data[x]@[y],
        )
}

/// Samples `noise` at every lattice point of a `width` by `height` domain:
/// entry `[x][y]` of the result is `noise(x, y)`.
pub fn create_noise<S, N: Fn(usize, usize) -> S>(width: usize, height: usize, noise: N) -> (data:
    Vec<Vec<S>>)
    requires
        forall|x: usize, y: usize| x < width && y < height ==> call_requires(noise, (x, y)),
    ensures
        noise_sampled(width, height, noise, data@),
{
    tabulate(width, height, noise)
}

/// Builds the samples of a procedural field over a `width` by `height`
/// domain.
///
/// The noise is sampled at every lattice point first; then row `j`, column
/// `i` of the result is `place(i, j, n)` where `n` is the noise sampled at
/// `(j, i)`.
pub fn create_map<S: Copy, N: Fn(usize, usize) -> S, P: Fn(usize, usize, S) -> Point3<S>>(
    width: usize,
    height: usize,
    noise: N,
    place: P,
) -> (paths: Vec<Vec<Point3<S>>>)
    requires
        forall|x: usize, y: usize| x < width && y < height ==> call_requires(noise, (x, y)),
        forall|i: usize, j: usize, n: S| call_requires(place, (i, j, n)),
    ensures
        sampled(width, height, noise, place, paths@),
{
    let noise_data = create_noise(width, height, noise);
    let mut paths: Vec<Vec<Point3<S>>> = Vec::new();
    let mut j: usize = 0;
    while j < width
        invariant
            forall|i: usize, j: usize, n: S| call_requires(place, (i, j, n)),
            is_grid(noise_data@, width as int, height as int),
            forall|x: int, y: int|
                0 <= x < width && 0 <= y < height ==> call_ensures(
                    noise,
                    (x as usize, y as usize),
                    #[trigger] noise_data@[x]@[y],
                ),
            j <= width,
            is_grid(paths@, j as int, height as int),
            forall|a: int, i: int|
                0 <= a < j && 0 <= i < height ==> placed(
                    noise,
                    place,
                    i as usize,
                    a as usize,
                    #[trigger] paths@[a]@[i],
                ),
        decreases width - j,
    {
        let mut path: Vec<Point3<S>> = Vec::new();
        let mut i: usize = 0;
        while i < height
            invariant
                forall|i: usize, j: usize, n: S| call_requires(place, (i, j, n)),
                is_grid(noise_data@, width as int, height as int),
                forall|x: int, y: int|
                    0 <= x < width && 0 <= y < height ==> call_ensures(
                        noise,
                        (x as usize, y as usize),
                        #[trigger] noise_data@[x]@[y],
                    ),
                j < width,
                i <= height,
                path@.len() == i,
                forall|b: int|
                    0 <= b < i ==> placed(noise, place, b as usize, j, #[trigger] path@[b]),
            decreases height - i,
        {
            let n = noise_data[j][i];
            assert(call_ensures(noise, (j, i), noise_data@[j as int]@[i as int]));
            let point = place(i, j, n);
            path.push(point);
            i += 1;
        }
        paths.push(path);
        j += 1;
    }
    paths
}

/// The ribbon mesh over a whole grid of samples, with texture coordinates
/// from arc lengths.
pub fn create_map_terrain<S: Copy, D: Fn(S, Point3<S>, Point3<S>) -> S, R: Fn(S, S) -> S>(
    map: &Vec<Vec<Point3<S>>>,
    zero: S,
    extend: &D,
    ratio: &R,
) -> (mesh: Result<Ribbon<S>, RibbonError>)
    requires
        forall|sum: S, a: Point3<S>, b: Point3<S>| call_requires(*extend, (sum, a, b)),
        forall|part: S, total: S| call_requires(*ratio, (part, total)),
    ensures
        match mesh {
            Ok(m) => {
                &&& ribbon_shape_of(map@, 0) == Ok::<(int, int), RibbonError>(
                    (m.rows as int, m.cols as int),
                )
                &&& m.wf()
                &&& m.positions@ == flattened(map@, m.cols as int)
                &&& arc_length_parametrised(map@, zero, *extend, *ratio, m.uvs@)
            },
            Err(e) => ribbon_shape_of(map@, 0) == Err::<(int, int), RibbonError>(e),
        },
{
    let uvs: Vec<Uv<S>> = Vec::new();
    create_ribbon(map, &uvs, zero, extend, ratio)
}

/// The ribbon mesh, with texture coordinates from arc lengths, over a window
/// of `size` cells per edge centred in a square grid of samples.
pub fn create_terrain<S: Copy, D: Fn(S, Point3<S>, Point3<S>) -> S, R: Fn(S, S) -> S>(
    map: &Vec<Vec<Point3<S>>>,
    size: usize,
    zero: S,
    extend: &D,
    ratio: &R,
) -> (mesh: Result<Ribbon<S>, WindowError>)
    requires
        forall|sum: S, a: Point3<S>, b: Point3<S>| call_requires(*extend, (sum, a, b)),
        forall|part: S, total: S| call_requires(*ratio, (part, total)),
    ensures
        match mesh {
            Ok(m) => {
                let start = map@.len() / 2 - size / 2;
                &&& window_start_of(map@, size as int) == Ok::<int, WindowError>(start)
                &&& m.wf()
                &&& m.rows == size + 1
                &&& m.cols == size + 1
                &&& m.positions@ == window_points(map@, start, start, size + 1)
                &&& exists|paths: Seq<Vec<Point3<S>>>|
                    {
                        &&& #[trigger] is_window(map@, start, start, size + 1, paths)
                        &&& arc_length_parametrised(paths, zero, *extend, *ratio, m.uvs@)
                    }
            },
            Err(e) => window_start_of(map@, size as int) == Err::<int, WindowError>(e),
        },
{
    let start = match window_start(map, size) {
        Ok(start) => start,
        Err(e) => { return Err(e); },
    };
    let width = size + 1;
    let paths = window_paths(map, start, start, width);
    let uvs: Vec<Uv<S>> = Vec::new();
    proof {
        lemma_window_paths_flatten(map@, paths@, start as int, start as int, width as int);
        assert(is_window(map@, start as int, start as int, width as int, paths@));
    }
    match create_ribbon(&paths, &uvs, zero, extend, ratio) {
        Ok(m) => Ok(m),
        Err(_) => {
            assert(false);
            Err(WindowError::TooManyVertices)
        },
    }
}

} // verus!
