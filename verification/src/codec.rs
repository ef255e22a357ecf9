//! The boundary to the `image` crate, which decodes, resamples and encodes.
//! Nothing in this file is proved: each contract records what the crate's
//! source shows of the call it wraps.

use vstd::prelude::*;

verus! {

#[verifier::external_type_specification]
#[verifier::external_body]
pub struct ExImageError(image::ImageError);

/// What decoding `bytes` and flattening the picture to 8-bit RGB yields:
/// width, height and pixel bytes, or `None` where the bytes are no picture
/// that the decoder accepts. The name stands for two calls in a row, the
/// decode and the flattening. It is a function of the bytes because this
/// crate builds the JPEG decoder with its feature `platform_independent`:
/// without it the decoder picks SIMD routines by CPU, and their rounding
/// differs from the plain code's.
pub uninterp spec fn decoded_rgb8(bytes: Seq<u8>) -> Option<(int, int, Seq<u8>)>;

/// What resampling a `width` x `height` RGB picture with the triangle filter
/// yields when it is asked to fit, with its aspect ratio kept, into a box of
/// `nwidth` x `nheight`: the new width, height and pixel bytes.
pub uninterp spec fn resized_rgb8(
    width: int,
    height: int,
    pixels: Seq<u8>,
    nwidth: int,
    nheight: int,
) -> (int, int, Seq<u8>);

/// The longest side that a JPEG can hold.
pub const JPEG_MAX_DIMENSION: u32 = 65535;

/// The sides `new_width` x `new_height` have the proportions of `width` x
/// `height`: with one side scaled exactly, the other is off by less than a
/// pixel.
pub open spec fn same_aspect(width: int, height: int, new_width: int, new_height: int) -> bool {
    let longer = if width >= height {
        width
    } else {
        height
    };
    -longer < new_height * width - new_width * height < longer
}

/// The baseline JPEG stream for a `width` x `height` RGB picture at `quality`,
/// or `None` where the encoder refuses the picture.
pub uninterp spec fn jpeg_bytes(width: int, height: int, pixels: Seq<u8>, quality: int) -> Option<
    Seq<u8>,
>;

/// Calls `image::load_from_memory` and then `DynamicImage::into_rgb8`. The
/// format is guessed from the bytes; every colour layout is flattened to 8-bit
/// RGB. The contract only names the outcome of the two calls together: nothing
/// is claimed of the dimensions or of the buffer's length.
#[verifier::external_body]
pub(crate) fn decode_rgb8(bytes: &[u8]) -> (out: Result<(u32, u32, Vec<u8>), image::ImageError>)
    ensures
        match out {
            Ok((width, height, pixels)) => decoded_rgb8(bytes@) == Some(
                (width as int, height as int, pixels@),
            ),
            Err(_) => decoded_rgb8(bytes@) is None,
        },
{
    let rgb = image::load_from_memory(bytes)?.into_rgb8();
    Ok((rgb.width(), rgb.height(), rgb.into_raw()))
}

/// Calls `DynamicImage::resize` with `FilterType::Triangle` on an RGB picture.
/// The crate computes the new dimensions itself: it scales both sides by the
/// smaller of the two ratios of box to picture, rounds each to the nearest
/// pixel and raises it to one pixel where it came out as none. So a side
/// exceeds its box only where the box has none and the side is one pixel; for
/// a box of at least one pixel each way one side meets the box exactly and the
/// proportions are kept to within a pixel. The result is allocated with
/// exactly three bytes per pixel. The call needs memory for the result and for
/// a floating-point intermediate of the source's width and the new height.
#[verifier::external_body]
pub(crate) fn resize_rgb8(width: u32, height: u32, pixels: &Vec<u8>, nwidth: u32, nheight: u32) -> (out: (
    u32,
    u32,
    Vec<u8>,
))
    requires
        width >= 1,
        height >= 1,
        pixels@.len() == 3 * width * height,
    ensures
        (out.0 as int, out.1 as int, out.2@) == resized_rgb8(
            width as int,
            height as int,
            pixels@,
            nwidth as int,
            nheight as int,
        ),
        out.0 >= 1,
        out.1 >= 1,
        out.2@.len() == 3 * out.0 * out.1,
        out.0 <= nwidth || out.0 == 1,
        out.1 <= nheight || out.1 == 1,
        nwidth >= 1 && nheight >= 1 ==> out.0 == nwidth || out.1 == nheight,
        nwidth >= 1 && nheight >= 1 ==> same_aspect(
            width as int,
            height as int,
            out.0 as int,
            out.1 as int,
        ),
{
    let source = image::RgbImage::from_raw(width, height, pixels.clone()).unwrap();
    let rgb = image::DynamicImage::ImageRgb8(source).resize(
        nwidth,
        nheight,
        image::imageops::FilterType::Triangle,
    ).into_rgb8();
    (rgb.width(), rgb.height(), rgb.into_raw())
}

/// Calls `JpegEncoder::new_with_quality` and `JpegEncoder::encode` with
/// `ColorType::Rgb8`, writing into a fresh vector. The encoder clamps
/// `quality` to 1..=100. It fails exactly where a side exceeds 65535: that is
/// its only error besides a failed write, and a vector takes every write. It
/// writes the start-of-image marker before anything else, so a stream that it
/// completes is not empty. It panics where the buffer's length is not three
/// bytes per pixel.
#[verifier::external_body]
pub(crate) fn encode_jpeg(width: u32, height: u32, pixels: &Vec<u8>, quality: u8) -> (out: Result<
    Vec<u8>,
    image::ImageError,
>)
    requires
        pixels@.len() == 3 * width * height,
    ensures
        match out {
            Ok(bytes) => jpeg_bytes(width as int, height as int, pixels@, quality as int) == Some(
                bytes@,
            ) && bytes@.len() > 0,
            Err(_) => jpeg_bytes(width as int, height as int, pixels@, quality as int) is None,
        },
        out is Err <==> width > JPEG_MAX_DIMENSION || height > JPEG_MAX_DIMENSION,
{
    let mut bytes = Vec::new();
    image::codecs::jpeg::JpegEncoder::new_with_quality(&mut bytes, quality).encode(
        pixels,
        width,
        height,
        image::ColorType::Rgb8,
    )?;
    Ok(bytes)
}

} // verus!
