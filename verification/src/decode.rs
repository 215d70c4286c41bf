//! Decoding of height images into raw 8-bit RGB samples.

use vstd::prelude::*;

verus! {

/// The file formats that a height image may be stored in.
#[derive(Clone, Copy, Debug, PartialEq, Eq, Structural)]
pub enum ImageKind {
    Png,
    Jpeg,
}

/// The error type of the `image` crate; nothing is known of its contents.
#[verifier::external_type_specification]
#[verifier::external_body]
pub struct ExImageError(image::ImageError);

/// What decoding the bytes of a PNG file yields: nothing if they are not a
/// readable PNG image, else the image's width, its height and its pixels as
/// 8-bit RGB, three bytes per pixel, row by row from the top.
pub uninterp spec fn decoded_png(file: Seq<u8>) -> Option<(u32, u32, Seq<u8>)>;

/// Decodes an image held in memory as the given format with
/// `image::load_from_memory_with_format`, converts it with
/// `DynamicImage::into_rgb8`, and hands out the buffer's `width`, `height`
/// and raw container (`into_raw`).
///
/// With the format fixed, the decoder is chosen among the built-in ones and
/// no registered hook is consulted. For PNG the result is claimed to be a
/// function of the bytes. For JPEG nothing is claimed: its decoder picks
/// among vector and scalar code at run time. The length of the raw container
/// is not promised for either.
#[verifier::external_body]
pub(crate) fn decode_rgb8(kind: ImageKind, file: &[u8]) -> (decoded: Result<
    (u32, u32, Vec<u8>),
    image::ImageError,
>)
    ensures
        kind == ImageKind::Png ==> match decoded {
            Ok((width, height, raw)) => decoded_png(file@) == Some((width, height, raw@)),
            Err(_) => decoded_png(file@) is None,
        },
{
    let format = match kind {
        ImageKind::Png => image::ImageFormat::Png,
        ImageKind::Jpeg => image::ImageFormat::Jpeg,
    };
    let rgb = image::load_from_memory_with_format(file, format)?.into_rgb8();
    Ok((rgb.width(), rgb.height(), rgb.into_raw()))
}

} // verus!
