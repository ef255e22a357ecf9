//! The decoded image that the compressor works on: 8-bit RGB pixels, row by row.

use crate::codec::{
    decode_rgb8, decoded_rgb8, encode_jpeg, jpeg_bytes, resize_rgb8, resized_rgb8, same_aspect,
    JPEG_MAX_DIMENSION,
};
use crate::error::CompressError;
use vstd::prelude::*;

verus! {

/// Bytes per pixel of the raster: red, green, blue.
pub const CHANNELS: usize = 3;

/// The mathematical model of a decoded image.
pub struct Raster {
    pub width: nat,
    pub height: nat,
    pub pixels: Seq<u8>,
}

impl Raster {
    /// A raster holds at least one pixel, and exactly three bytes for each.
    pub open spec fn wf(self) -> bool {
        &&& 1 <= self.width <= u32::MAX
        &&& 1 <= self.height <= u32::MAX
        &&& self.pixels.len() == 3 * self.width * self.height
    }

    /// The raster that resampling this one into a box of `nwidth` x `nheight`
    /// yields.
    pub open spec fn resized(self, nwidth: nat, nheight: nat) -> Raster {
        let out = resized_rgb8(
            self.width as int,
            self.height as int,
            self.pixels,
            nwidth as int,
            nheight as int,
        );
        Raster { width: out.0 as nat, height: out.1 as nat, pixels: out.2 }
    }

    /// The JPEG stream of this raster at `quality`, where the encoder gives one.
    pub open spec fn jpeg(self, quality: int) -> Option<Seq<u8>> {
        jpeg_bytes(self.width as int, self.height as int, self.pixels, quality)
    }

    /// The larger of the two dimensions.
    pub open spec fn max_dimension(self) -> nat {
        if self.width >= self.height {
            self.width
        } else {
            self.height
        }
    }
}

/// The raster that `bytes` decode to: what the decoder yields, where that is a
/// well-formed raster.
pub open spec fn decoded(bytes: Seq<u8>) -> Option<Raster> {
    match decoded_rgb8(bytes) {
        Some((width, height, pixels)) => {
            let raster = Raster { width: width as nat, height: height as nat, pixels };
            if 0 <= width && 0 <= height && raster.wf() {
                Some(raster)
            } else {
                None
            }
        },
        None => None,
    }
}

/// A decoded image: its dimensions in pixels and its RGB bytes.
pub struct DecodedImage {
    width: u32,
    height: u32,
    pixels: Vec<u8>,
}

impl View for DecodedImage {
    type V = Raster;

    closed spec fn view(&self) -> Raster {
        Raster { width: self.width as nat, height: self.height as nat, pixels: self.pixels@ }
    }
}

impl DecodedImage {
    #[verifier::type_invariant]
    spec fn well_formed(self) -> bool {
        self@.wf()
    }

    /// Builds an image from its dimensions and pixel bytes. Succeeds exactly
    /// when both dimensions are positive and `pixels` holds three bytes for
    /// every pixel.
    pub fn new(width: u32, height: u32, pixels: Vec<u8>) -> (image: Option<DecodedImage>)
        ensures
            image is Some <==> (Raster {
                width: width as nat,
                height: height as nat,
                pixels: pixels@,
            }).wf(),
            image matches Some(img) ==> img@ == (Raster {
                width: width as nat,
                height: height as nat,
                pixels: pixels@,
            }),
    {
        if width == 0 || height == 0 {
            return None;
        }
        assert((width as u64) * (height as u64) <= 0xFFFF_FFFE_0000_0001) by (nonlinear_arith)
            requires
                width <= 0xFFFF_FFFF,
                height <= 0xFFFF_FFFF,
        ;
        let area: u64 = (width as u64) * (height as u64);
        let expected: u128 = 3 * (area as u128);
        assert(expected == 3 * (width as nat) * (height as nat)) by (nonlinear_arith)
            requires
                expected == 3 * area,
                area == width * height,
        ;
        if pixels.len() as u128 != expected {
            return None;
        }
        Some(DecodedImage { width, height, pixels })
    }

    /// Decodes a PNG or JPEG. Fails with `DecodeFailed` exactly when the bytes
    /// decode to no well-formed raster.
    pub fn decode(bytes: &[u8]) -> (out: Result<DecodedImage, CompressError>)
        ensures
            match out {
                Ok(image) => decoded(bytes@) == Some(image@),
                Err(e) => e == CompressError::DecodeFailed && decoded(bytes@) is None,
            },
    {
        match decode_rgb8(bytes) {
            Ok((width, height, pixels)) => match DecodedImage::new(width, height, pixels) {
                Some(image) => Ok(image),
                None => Err(CompressError::DecodeFailed),
            },
            Err(_) => Err(CompressError::DecodeFailed),
        }
    }

    /// Resamples the image to the largest size that fits, with its proportions
    /// kept, into a box of `nwidth` x `nheight` pixels. A side never comes out
    /// below one pixel, also where its box has none.
    pub fn resize(&self, nwidth: u32, nheight: u32) -> (out: DecodedImage)
        ensures
            out@ == self@.resized(nwidth as nat, nheight as nat),
            out@.wf(),
            out@.width <= nwidth || out@.width == 1,
            out@.height <= nheight || out@.height == 1,
            nwidth >= 1 && nheight >= 1 ==> out@.width == nwidth || out@.height == nheight,
            nwidth >= 1 && nheight >= 1 ==> same_aspect(
                self@.width as int,
                self@.height as int,
                out@.width as int,
                out@.height as int,
            ),
    {
        proof {
            use_type_invariant(self);
        }
        let (width, height, pixels) = resize_rgb8(
            self.width,
            self.height,
            &self.pixels,
            nwidth,
            nheight,
        );
        DecodedImage { width, height, pixels }
    }

    /// Encodes the image as a JPEG at `quality`. `None` exactly where a side
    /// is longer than a JPEG can hold; a stream is never empty.
    pub fn encode(&self, quality: u8) -> (out: Option<Vec<u8>>)
        ensures
            match out {
                Some(bytes) => self@.jpeg(quality as int) == Some(bytes@) && bytes@.len() > 0,
                None => self@.jpeg(quality as int) is None,
            },
            out is None <==> self@.width > JPEG_MAX_DIMENSION || self@.height
                > JPEG_MAX_DIMENSION,
    {
        proof {
            use_type_invariant(self);
        }
        match encode_jpeg(self.width, self.height, &self.pixels, quality) {
            Ok(bytes) => Some(bytes),
            Err(_) => None,
        }
    }

    /// Width in pixels.
    pub fn width(&self) -> (w: u32)
        ensures
            w == self@.width,
            self@.wf(),
    {
        proof {
            use_type_invariant(self);
        }
        self.width
    }

    /// Height in pixels.
    pub fn height(&self) -> (h: u32)
        ensures
            h == self@.height,
            self@.wf(),
    {
        proof {
            use_type_invariant(self);
        }
        self.height
    }

    /// The RGB bytes, row by row.
    pub fn pixels(&self) -> (p: &Vec<u8>)
        ensures
            p@ == self@.pixels,
            self@.wf(),
    {
        proof {
            use_type_invariant(self);
        }
        &self.pixels
    }
}

} // verus!
