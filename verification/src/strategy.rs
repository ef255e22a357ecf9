//! The resize strategy: shrink an oversized image once before searching, then
//! search at up to three scales, and fall back to a fixed low quality where no
//! search fits the budget.

use crate::codec::{same_aspect, JPEG_MAX_DIMENSION};
use crate::error::CompressError;
use crate::factor::{FactorView, ResizeFactor};
use crate::raster::{DecodedImage, Raster};
use crate::search::{search_outcome, search_quality};
use vstd::prelude::*;

verus! {

/// Budgets below this many kilobytes count as small.
pub const SMALL_BUDGET_KB: usize = 100;

/// The largest dimension that an image keeps under a small budget.
pub const PRECHECK_MAX_DIMENSION: u32 = 1500;

/// How many scales are tried before the fallback.
pub const MAX_ATTEMPTS: u32 = 3;

/// The quality of the fallback encode.
pub const FALLBACK_QUALITY: u8 = 10;

/// The budget is small and the image's larger dimension exceeds the limit.
pub open spec fn is_oversized(width: nat, height: nat, target_kb: nat) -> bool {
    target_kb < 100 && (width > 1500 || height > 1500)
}

/// The image that the attempts start from: an oversized image is shrunk once
/// into a square box of the limit, any other is taken as it is.
pub open spec fn prechecked(image: Raster, target_kb: nat) -> Raster {
    if is_oversized(image.width, image.height, target_kb) {
        image.resized(1500, 1500)
    } else {
        image
    }
}

/// The image that attempt number `attempt` searches: the first attempt takes
/// `current` as it is; a later one resamples it into the base dimensions
/// scaled by the factor of that attempt.
pub open spec fn attempt_image(current: Raster, base: Raster, attempt: nat) -> Raster {
    let factor = FactorView { shrinks: attempt };
    if factor.is_one() {
        current
    } else {
        current.resized(factor.apply(base.width), factor.apply(base.height))
    }
}

/// The fallback: `image` at the fixed low quality, whatever its size.
pub open spec fn fallback_outcome(image: Raster) -> Result<Seq<u8>, CompressError> {
    match image.jpeg(10) {
        Some(bytes) => Ok(bytes),
        None => Err(CompressError::FallbackEncodeFailed),
    }
}

/// What the attempts from number `attempt` on yield, when the image of the
/// previous attempt is `current`: the result of the first search that finds a
/// fit, or the fallback on the image of the last attempt.
pub open spec fn attempts_from(current: Raster, base: Raster, attempt: nat, target_kb: nat) -> Result<
    Seq<u8>,
    CompressError,
>
    decreases 3 - attempt,
{
    if attempt >= 3 {
        fallback_outcome(current)
    } else {
        let image = attempt_image(current, base, attempt);
        let found = search_outcome(image, target_kb);
        if found.len() > 0 {
            Ok(found)
        } else {
            attempts_from(image, base, attempt + 1, target_kb)
        }
    }
}

/// What compressing `image` under a budget of `target_kb` kilobytes yields.
pub open spec fn compress_outcome(image: Raster, target_kb: nat) -> Result<Seq<u8>, CompressError> {
    let base = prechecked(image, target_kb);
    attempts_from(base, base, 0, target_kb)
}

/// The model of a compression result.
pub open spec fn outcome_view(outcome: Result<Vec<u8>, CompressError>) -> Result<
    Seq<u8>,
    CompressError,
> {
    match outcome {
        Ok(bytes) => Ok(bytes@),
        Err(e) => Err(e),
    }
}

/// Whether an image of `width` x `height` is shrunk before the search under a
/// budget of `target_kb` kilobytes.
pub fn needs_precheck(width: u32, height: u32, target_kb: usize) -> (oversized: bool)
    ensures
        oversized == is_oversized(width as nat, height as nat, target_kb as nat),
{
    target_kb < SMALL_BUDGET_KB && (width > PRECHECK_MAX_DIMENSION || height
        > PRECHECK_MAX_DIMENSION)
}

/// Shrinks an oversized image once, so that its larger dimension is exactly
/// the limit and its proportions are kept; hands any other image back as it
/// is.
pub fn precheck(image: DecodedImage, target_kb: usize) -> (base: DecodedImage)
    ensures
        base@ == prechecked(image@, target_kb as nat),
        base@.wf(),
        is_oversized(image@.width, image@.height, target_kb as nat) ==> {
            &&& base@.max_dimension() == PRECHECK_MAX_DIMENSION
            &&& same_aspect(
                image@.width as int,
                image@.height as int,
                base@.width as int,
                base@.height as int,
            )
        },
        !is_oversized(image@.width, image@.height, target_kb as nat) ==> base@ == image@,
        target_kb < SMALL_BUDGET_KB ==> base@.max_dimension() <= PRECHECK_MAX_DIMENSION,
{
    if needs_precheck(image.width(), image.height(), target_kb) {
        image.resize(PRECHECK_MAX_DIMENSION, PRECHECK_MAX_DIMENSION)
    } else {
        image
    }
}

/// The image can be encoded at every scale that the attempts reach: a small
/// budget shrinks it first, and otherwise neither side is longer than a JPEG
/// can hold.
pub open spec fn always_encodable(image: Raster, target_kb: nat) -> bool {
    target_kb < 100 || (image.width <= 65535 && image.height <= 65535)
}

/// Compresses a decoded image into a JPEG of at most `target_kb` kilobytes
/// where any of three scales allows it, and into the fallback JPEG where none
/// does. A stream that is returned is never empty. The call fails only where
/// the fallback cannot be encoded, and never for an image that a JPEG can
/// hold.
pub fn compress(image: DecodedImage, target_kb: usize) -> (outcome: Result<Vec<u8>, CompressError>)
    ensures
        outcome_view(outcome) == compress_outcome(image@, target_kb as nat),
        outcome matches Ok(bytes) ==> bytes@.len() > 0,
        outcome matches Err(e) ==> e == CompressError::FallbackEncodeFailed,
        always_encodable(image@, target_kb as nat) ==> outcome is Ok,
{
    let ghost start = image@;
    let base = precheck(image, target_kb);
    let ghost base_view = base@;
    let base_width = base.width();
    let base_height = base.height();
    let mut current = base;
    let mut factor = ResizeFactor::one();
    let mut attempt: u32 = 0;
    while attempt < MAX_ATTEMPTS
        invariant
            attempt <= MAX_ATTEMPTS,
            start == image@,
            factor@.shrinks == attempt,
            base_view.wf(),
            base_width == base_view.width,
            base_height == base_view.height,
            always_encodable(start, target_kb as nat) ==> {
                &&& base_width <= JPEG_MAX_DIMENSION
                &&& base_height <= JPEG_MAX_DIMENSION
                &&& current@.width <= JPEG_MAX_DIMENSION
                &&& current@.height <= JPEG_MAX_DIMENSION
            },
            compress_outcome(start, target_kb as nat) == attempts_from(
                current@,
                base_view,
                attempt as nat,
                target_kb as nat,
            ),
        decreases MAX_ATTEMPTS - attempt,
    {
        if !factor.is_one() {
            current = current.resize(factor.apply(base_width), factor.apply(base_height));
        }
        let found = search_quality(&current, target_kb);
        if found.len() > 0 {
            return Ok(found);
        }
        factor = factor.shrink();
        attempt += 1;
    }
    match current.encode(FALLBACK_QUALITY) {
        Some(bytes) => Ok(bytes),
        None => Err(CompressError::FallbackEncodeFailed),
    }
}

} // verus!
