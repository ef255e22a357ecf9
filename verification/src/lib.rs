//! Compresses a raster image into a JPEG that respects a size budget given in
//! kilobytes, keeping the quality as high as the budget allows.

pub mod codec;
pub mod error;
pub mod factor;
pub mod gate;
pub mod laws;
pub mod raster;
pub mod search;
pub mod strategy;

use crate::error::CompressError;
use crate::gate::{host_allowed, is_authorized_domain};
use crate::raster::{decoded, DecodedImage};
use crate::strategy::{always_encodable, compress, compress_outcome, outcome_view};
use vstd::prelude::*;

verus! {

/// What a call yields: nothing for a host that is not allowed, nothing for
/// bytes that are no image, and otherwise what compressing the decoded image
/// yields.
pub open spec fn exact_outcome(bytes: Seq<u8>, target_kb: nat, hostname: Seq<char>) -> Result<
    Seq<u8>,
    CompressError,
> {
    if !host_allowed(hostname) {
        Ok(Seq::empty())
    } else {
        match decoded(bytes) {
            None => Ok(Seq::empty()),
            Some(image) => compress_outcome(image, target_kb),
        }
    }
}

/// Compresses the image in `image_data` (PNG or JPEG) into a JPEG of at most
/// `target_kb` kilobytes, for a caller on `hostname`.
///
/// The host is checked first, before anything is decoded: a host that is not
/// allowed gets an empty vector. So do bytes that do not decode. Any other call
/// gets a JPEG that is not empty, within the budget where a search fit and
/// beyond it where only the fallback was left, or the one error that the
/// fallback could not be encoded. That error needs a budget of a hundred
/// kilobytes or more and an image with a side longer than a JPEG can hold.
pub fn compress_exact(image_data: &[u8], target_kb: usize, hostname: &str) -> (outcome: Result<
    Vec<u8>,
    CompressError,
>)
    ensures
        outcome_view(outcome) == exact_outcome(image_data@, target_kb as nat, hostname@),
        !host_allowed(hostname@) ==> outcome_view(outcome) == Ok::<Seq<u8>, CompressError>(
            Seq::empty(),
        ),
        decoded(image_data@) is None ==> outcome_view(outcome) == Ok::<Seq<u8>, CompressError>(
            Seq::empty(),
        ),
        outcome matches Ok(bytes) ==> (bytes@.len() > 0 <==> host_allowed(hostname@) && decoded(
            image_data@,
        ) is Some),
        outcome matches Err(e) ==> e == CompressError::FallbackEncodeFailed,
        outcome is Err ==> host_allowed(hostname@) && decoded(image_data@) is Some
            && !always_encodable(decoded(image_data@)->0, target_kb as nat),
{
    if !is_authorized_domain(hostname) {
        return Ok(Vec::new());
    }
    match DecodedImage::decode(image_data) {
        Ok(image) => compress(image, target_kb),
        Err(_) => Ok(Vec::new()),
    }
}

} // verus!
