//! The height field: the full square grid of terrain samples that a window
//! pages through.

use vstd::prelude::*;
use crate::arc_length::textured;
use crate::decode::{decode_rgb8, decoded_png, ImageKind};
use crate::geometry::{Point3, Uv};
use crate::grid::{flattened, is_grid, lemma_slot_bound};
use crate::ribbon::{create_ribbon, has_shape, Ribbon, RibbonError};
use crate::terrain;
use crate::terrain::{noise_sampled, sampled};

verus! {

/// Why a grid of samples is not a height field.
#[derive(Clone, Copy, Debug, PartialEq, Eq, Structural)]
pub enum FieldError {
    /// Fewer than two rows of samples.
    TooFewSamples,
    /// Some row is not as long as the field has rows.
    NotSquare,
    /// Texture coordinates were supplied, but not one per sample.
    UvCountMismatch,
    /// The image source could not be decoded.
    Undecodable,
    /// The pixel buffer holds fewer than three bytes per pixel.
    PixelCountMismatch,
}

/// The full grid of terrain samples. It never changes once built.
#[derive(Debug, PartialEq)]
pub struct HeightField<S> {
    /// The samples, row by row; row `r` runs along the x axis at depth `r`.
    pub coords: Vec<Vec<Point3<S>>>,
    /// Either empty, or the texture coordinate of each sample, row-major.
    pub uvs: Vec<Uv<S>>,
    /// World-space length of one edge of the field.
    pub length: S,
    /// Number of samples per axis.
    pub subdivisions: usize,
    /// World-space length of one cell.
    pub average_sub_size: S,
}

/// One pixel of a height image: its column `i` and row `j` (row 0 is the top
/// row), the size of the image, and its colour.
#[derive(Clone, Copy, Debug, PartialEq, Eq)]
pub struct Pixel {
    pub i: u32,
    pub j: u32,
    pub width: u32,
    pub height: u32,
    pub r: u8,
    pub g: u8,
    pub b: u8,
}

/// The pixel at column `i`, row `j` of a `width` by `height` image whose
/// colours are stored as three bytes per pixel, row by row.
pub open spec fn pixel_at(width: u32, height: u32, raw: Seq<u8>, i: int, j: int) -> Pixel {
    Pixel {
        i: i as u32,
        j: j as u32,
        width,
        height,
        r: raw[3 * (j * width + i)],
        g: raw[3 * (j * width + i) + 1],
        b: raw[3 * (j * width + i) + 2],
    }
}

/// `data` and `uvs` are what `shade` may answer for the pixels of the image:
/// row `j`, column `i` of `data` and entry `j * width + i` of `uvs` are the
/// sample and the texture coordinate of the pixel at column `i`, row `j`.
pub open spec fn shaded<S, F: Fn(Pixel) -> (Point3<S>, Uv<S>)>(
    width: u32,
    height: u32,
    raw: Seq<u8>,
    shade: F,
    data: Seq<Vec<Point3<S>>>,
    uvs: Seq<Uv<S>>,
) -> bool {
    &&& is_grid(data, height as int, width as int)
    &&& uvs.len() == height * width
    &&& forall|j: int, i: int|
        0 <= j < height && 0 <= i < width ==> call_ensures(
            shade,
            (pixel_at(width, height, raw, i, j),),
            (#[trigger] data[j]@[i], uvs[j * width + i]),
        )
}

/// `map` is what the pixels of an image give: the shaded samples when the
/// buffer holds at least three bytes per pixel, and an error when it is too
/// short.
pub open spec fn heightmap_of<S, F: Fn(Pixel) -> (Point3<S>, Uv<S>)>(
    width: u32,
    height: u32,
    raw: Seq<u8>,
    shade: F,
    map: Result<(Vec<Vec<Point3<S>>>, Vec<Uv<S>>), FieldError>,
) -> bool {
    match map {
        Ok((data, uvs)) => raw.len() >= 3 * (height * width) && shaded(
            width,
            height,
            raw,
            shade,
            data@,
            uvs@,
        ),
        Err(e) => raw.len() < 3 * (height * width) && e == FieldError::PixelCountMismatch,
    }
}

/// `map` is what some image gives, or the answer for a file that cannot be
/// decoded.
pub open spec fn heightmap_of_some_image<S, F: Fn(Pixel) -> (Point3<S>, Uv<S>)>(
    shade: F,
    map: Result<(Vec<Vec<Point3<S>>>, Vec<Uv<S>>), FieldError>,
) -> bool {
    ||| map matches Err(e) && e == FieldError::Undecodable
    ||| exists|width: u32, height: u32, raw: Seq<u8>| #[trigger]
        heightmap_of(width, height, raw, shade, map)
}

/// Whether a buffer of `len` bytes holds three bytes for each pixel of a
/// `width` by `height` image.
fn holds_pixels(len: usize, width: u32, height: u32) -> (enough: bool)
    ensures
        enough == (len >= 3 * (height * width)),
{
    assert(height * width <= 0xffff_ffff * 0xffff_ffff) by (nonlinear_arith)
        requires
            height <= 0xffff_ffff,
            width <= 0xffff_ffff,
    ;
    let pixels: u64 = height as u64 * width as u64;
    len as u128 >= 3 * (pixels as u128)
}

/// Builds the samples and texture coordinates of an image-sampled field from
/// decoded 8-bit RGB pixels, calling `shade` once per pixel, row by row from
/// the top and left to right within a row.
///
/// The arithmetic that turns a pixel into a sample is the caller's: `shade`
/// answers the point and the texture coordinate of one pixel.
pub fn heightmap_from_pixels<S, F: Fn(Pixel) -> (Point3<S>, Uv<S>)>(
    width: u32,
    height: u32,
    raw: &Vec<u8>,
    shade: F,
) -> (map: Result<(Vec<Vec<Point3<S>>>, Vec<Uv<S>>), FieldError>)
    requires
        forall|pixel: Pixel| call_requires(shade, (pixel,)),
    ensures
        heightmap_of(width, height, raw@, shade, map),
{
    let len = raw.len();
    if !holds_pixels(len, width, height) {
        return Err(FieldError::PixelCountMismatch);
    }
    let w = width as usize;
    let h = height as usize;
    let mut data: Vec<Vec<Point3<S>>> = Vec::new();
    let mut uvs: Vec<Uv<S>> = Vec::new();
    let mut j: usize = 0;
    while j < h
        invariant
            forall|pixel: Pixel| call_requires(shade, (pixel,)),
            w == width,
            h == height,
            len == raw@.len(),
            len >= 3 * (h * w),
            j <= h,
            is_grid(data@, j as int, w as int),
            uvs@.len() == j * w,
            forall|a: int, i: int|
                0 <= a < j && 0 <= i < w ==> call_ensures(
                    shade,
                    (pixel_at(width, height, raw@, i, a),),
                    (#[trigger] data@[a]@[i], uvs@[a * w + i]),
                ),
        decreases h - j,
    {
        let mut path: Vec<Point3<S>> = Vec::new();
        let mut i: usize = 0;
        while i < w
            invariant
                forall|pixel: Pixel| call_requires(shade, (pixel,)),
                w == width,
                h == height,
                len == raw@.len(),
                len >= 3 * (h * w),
                j < h,
                i <= w,
                is_grid(data@, j as int, w as int),
                path@.len() == i,
                uvs@.len() == j * w + i,
                forall|a: int, c: int|
                    0 <= a < j && 0 <= c < w ==> call_ensures(
                        shade,
                        (pixel_at(width, height, raw@, c, a),),
                        (#[trigger] data@[a]@[c], uvs@[a * w + c]),
                    ),
                forall|c: int|
                    0 <= c < i ==> call_ensures(
                        shade,
                        (pixel_at(width, height, raw@, c, j as int),),
                        (#[trigger] path@[c], uvs@[j * w + c]),
                    ),
            decreases w - i,
        {
            proof {
                lemma_slot_bound(j as int, i as int, h as int, w as int);
                assert forall|a: int, c: int| 0 <= a < j && 0 <= c < w implies 0 <= #[trigger] (a
                    * w + c) < j * w by {
                    lemma_slot_bound(a, c, j as int, w as int);
                }
            }
            let base = 3 * (j * w + i);
            let pixel = Pixel {
                i: i as u32,
                j: j as u32,
                width,
                height,
                r: raw[base],
                g: raw[base + 1],
                b: raw[base + 2],
            };
            let (point, uv) = shade(pixel);
            path.push(point);
            uvs.push(uv);
            i += 1;
        }
        proof {
            assert((j + 1) * w == j * w + w) by (nonlinear_arith);
        }
        data.push(path);
        j += 1;
    }
    Ok((data, uvs))
}

/// The number of samples per axis of the field that `coords` and `uv_count`
/// texture coordinates form, or the first reason why they form none.
pub open spec fn field_size_of<T>(coords: Seq<Vec<T>>, uv_count: int) -> Result<int, FieldError> {
    let n = coords.len() as int;
    if n < 2 {
        Err(FieldError::TooFewSamples)
    } else if !is_grid(coords, n, n) {
        Err(FieldError::NotSquare)
    } else if uv_count != 0 && uv_count != n * n {
        Err(FieldError::UvCountMismatch)
    } else {
        Ok(n)
    }
}

impl<S: Copy> HeightField<S> {
    /// The samples form a square grid of at least two rows, with either no
    /// texture coordinates or one per sample.
    pub open spec fn wf(&self) -> bool {
        field_size_of(self.coords@, self.uvs@.len() as int) == Ok::<int, FieldError>(
            self.subdivisions as int,
        )
    }

    /// The sample at row `r`, column `c`.
    pub open spec fn sample(&self, r: int, c: int) -> Point3<S> {
        self.coords@[r]@[c]
    }

    /// The texture coordinate of the sample at row `r`, column `c`.
    pub open spec fn sample_uv(&self, r: int, c: int) -> Uv<S> {
        self.uvs@[r * self.subdivisions + c]
    }

    /// Whether the field carries texture coordinates.
    pub open spec fn has_uvs(&self) -> bool {
        self.uvs@.len() != 0
    }

    /// Builds the field over `coords` and `uvs`.
    ///
    /// The edge length and the cell size are the caller's arithmetic: `measure`
    /// is called once, with the x coordinates of the first and the last sample
    /// of the first row and the number of samples per axis, and answers with
    /// the pair (edge length, cell size).
    pub fn new<F: Fn(S, S, usize) -> (S, S)>(
        coords: Vec<Vec<Point3<S>>>,
        uvs: Vec<Uv<S>>,
        measure: F,
    ) -> (field: Result<Self, FieldError>)
        requires
            forall|first: S, last: S, n: usize| call_requires(measure, (first, last, n)),
        ensures
            match field {
                Ok(f) => {
                    &&& f.wf()
                    &&& f.subdivisions == coords@.len()
                    &&& f.coords == coords
                    &&& f.uvs == uvs
                    &&& call_ensures(
                        measure,
                        (coords@[0]@[0].x, coords@[0]@[f.subdivisions - 1].x, f.subdivisions),
                        (f.length, f.average_sub_size),
                    )
                },
                Err(e) => field_size_of(coords@, uvs@.len() as int) == Err::<int, FieldError>(e),
            },
    {
        let n = coords.len();
        if n < 2 {
            return Err(FieldError::TooFewSamples);
        }
        if !has_shape(&coords, n, n) {
            return Err(FieldError::NotSquare);
        }
        if uvs.len() != 0 {
            match n.checked_mul(n) {
                Some(count) => {
                    if uvs.len() != count {
                        return Err(FieldError::UvCountMismatch);
                    }
                },
                None => {
                    return Err(FieldError::UvCountMismatch);
                },
            }
        }
        let first = coords[0][0].x;
        let last = coords[0][n - 1].x;
        let (length, average_sub_size) = measure(first, last, n);
        Ok(HeightField { coords, uvs, length, subdivisions: n, average_sub_size })
    }

    /// Samples `noise` at every lattice point of a `width` by `height`
    /// domain: entry `[x][y]` of the result is `noise(x, y)`.
    pub fn create_noise<N: Fn(usize, usize) -> S>(width: usize, height: usize, noise: N) -> (data:
        Vec<Vec<S>>)
        requires
            forall|x: usize, y: usize| x < width && y < height ==> call_requires(noise, (x, y)),
        ensures
            noise_sampled(width, height, noise, data@),
    {
        terrain::create_noise(width, height, noise)
    }

    /// Builds the samples of a procedural field over a `width` by `height`
    /// domain; such a field carries no texture coordinates of its own.
    ///
    /// The noise is sampled at every lattice point first; then row `j`,
    /// column `i` of the result is `place(i, j, n)` where `n` is the noise
    /// sampled at `(j, i)`.
    pub fn create_map<N: Fn(usize, usize) -> S, P: Fn(usize, usize, S) -> Point3<S>>(
        width: usize,
        height: usize,
        noise: N,
        place: P,
    ) -> (map: (Vec<Vec<Point3<S>>>, Vec<Uv<S>>))
        requires
            forall|x: usize, y: usize| x < width && y < height ==> call_requires(noise, (x, y)),
            forall|i: usize, j: usize, n: S| call_requires(place, (i, j, n)),
        ensures
            sampled(width, height, noise, place, map.0@),
            map.1@.len() == 0,
    {
        (terrain::create_map(width, height, noise, place), Vec::new())
    }

    /// Builds the samples and texture coordinates of an image-sampled field
    /// from the bytes of an image file of the given format: the file is
    /// decoded to 8-bit RGB and its pixels are shaded as
    /// `heightmap_from_pixels` does.
    ///
    /// For a PNG file the result is fixed by the bytes. For a JPEG file the
    /// decoded pixels are not pinned down; whatever they are, the result is
    /// what `heightmap_from_pixels` gives for them.
    pub fn create_heightmap_from_file<F: Fn(Pixel) -> (Point3<S>, Uv<S>)>(
        file: &[u8],
        kind: ImageKind,
        shade: F,
    ) -> (map: Result<(Vec<Vec<Point3<S>>>, Vec<Uv<S>>), FieldError>)
        requires
            forall|pixel: Pixel| call_requires(shade, (pixel,)),
        ensures
            kind == ImageKind::Png ==> match decoded_png(file@) {
                Some((width, height, raw)) => heightmap_of(width, height, raw, shade, map),
                None => map matches Err(e) && e == FieldError::Undecodable,
            },
            heightmap_of_some_image(shade, map),
    {
        match decode_rgb8(kind, file) {
            Ok((width, height, raw)) => {
                let map = heightmap_from_pixels(width, height, &raw, shade);
                assert(heightmap_of(width, height, raw@, shade, map));
                map
            },
            Err(_) => Err(FieldError::Undecodable),
        }
    }

    /// The ribbon mesh over the whole field, textured as `create_ribbon`
    /// does: with the field's own coordinates where it carries any, and else
    /// from arc lengths.
    pub fn create_mesh<D: Fn(S, Point3<S>, Point3<S>) -> S, R: Fn(S, S) -> S>(
        &self,
        zero: S,
        extend: &D,
        ratio: &R,
    ) -> (mesh: Result<Ribbon<S>, RibbonError>)
        requires
            self.wf(),
            forall|sum: S, a: Point3<S>, b: Point3<S>| call_requires(*extend, (sum, a, b)),
            forall|part: S, total: S| call_requires(*ratio, (part, total)),
        ensures
            match mesh {
                Ok(m) => {
                    &&& self.subdivisions * self.subdivisions <= u32::MAX
                    &&& m.wf()
                    &&& m.rows == self.subdivisions
                    &&& m.cols == self.subdivisions
                    &&& m.positions@ == flattened(self.coords@, self.subdivisions as int)
                    &&& textured(self.coords@, self.uvs@, zero, *extend, *ratio, m.uvs@)
                },
                Err(e) => e == RibbonError::TooManyVertices && self.subdivisions
                    * self.subdivisions > u32::MAX,
            },
    {
        create_ribbon(&self.coords, &self.uvs, zero, extend, ratio)
    }
}

} // verus!
