//! What holds of a whole compression call, proved from the contracts of its
//! parts.

use crate::error::CompressError;
use crate::exact_outcome;
use crate::gate::host_allowed;
use crate::raster::{decoded, Raster};
use crate::search::{
    fit_is_monotone, fits_at, is_fit, jpeg_probe, lemma_larger_budget_never_shrinks,
    lemma_nothing_fits, lemma_top_quality_wins, search_outcome, sizes_grow_with_quality,
    SearchView,
};
use crate::strategy::{
    attempt_image, attempts_from, compress_outcome, fallback_outcome, outcome_view, prechecked,
};
use vstd::prelude::*;

verus! {

/// A generous budget keeps the top quality. Where the image that the attempts
/// start from fits at quality 100, and fitting is monotone in the quality, the
/// result is the stream of quality 100, and its size in whole kilobytes is
/// within the budget.
pub proof fn lemma_generous_budget_keeps_top_quality(image: Raster, target_kb: nat)
    requires
        fit_is_monotone(jpeg_probe(prechecked(image, target_kb)), target_kb, 5, 100),
        is_fit(prechecked(image, target_kb).jpeg(100), target_kb),
    ensures
        compress_outcome(image, target_kb) == Ok::<Seq<u8>, CompressError>(
            prechecked(image, target_kb).jpeg(100)->0,
        ),
        compress_outcome(image, target_kb)->Ok_0.len() / 1024 <= target_kb,
{
    let base = prechecked(image, target_kb);
    assert(fits_at(jpeg_probe(base), target_kb, 100));
    lemma_top_quality_wins(SearchView::initial(), jpeg_probe(base), target_kb);
    assert(attempt_image(base, base, 0) == base);
}

/// The images of the three attempts, from the base image on.
pub open spec fn nth_attempt_image(base: Raster, attempt: nat) -> Raster
    decreases attempt,
{
    if attempt == 0 {
        attempt_image(base, base, 0)
    } else {
        attempt_image(nth_attempt_image(base, (attempt - 1) as nat), base, attempt)
    }
}

/// The fallback guarantee. Where the search fits at none of the three scales,
/// the result is the fallback encode of the smallest image, whether or not it
/// meets the budget.
pub proof fn lemma_fallback_when_nothing_fits(image: Raster, target_kb: nat)
    requires
        forall|attempt: nat|
            attempt < 3 ==> search_outcome(
                #[trigger] nth_attempt_image(prechecked(image, target_kb), attempt),
                target_kb,
            ).len() == 0,
    ensures
        compress_outcome(image, target_kb) == fallback_outcome(
            nth_attempt_image(prechecked(image, target_kb), 2),
        ),
{
    let base = prechecked(image, target_kb);
    let first = nth_attempt_image(base, 0);
    let second = nth_attempt_image(base, 1);
    let third = nth_attempt_image(base, 2);
    assert(second == attempt_image(first, base, 1));
    assert(third == attempt_image(second, base, 2));
    assert(attempts_from(third, base, 3, target_kb) == fallback_outcome(third));
    assert(attempts_from(second, base, 2, target_kb) == fallback_outcome(third));
    assert(attempts_from(first, base, 1, target_kb) == fallback_outcome(third));
}

/// No stream of `image` between the lowest and the highest quality is shorter
/// than a kilobyte.
pub open spec fn every_stream_fills_a_kilobyte(image: Raster) -> bool {
    forall|quality: int|
        5 <= quality <= 100 ==> (#[trigger] image.jpeg(quality) matches Some(bytes) ==> bytes.len()
            >= 1024)
}

/// A budget of zero ends in the fallback. Where no stream of the three images
/// is shorter than a kilobyte, no search fits, and the result is the fallback
/// encode of the smallest image.
pub proof fn lemma_zero_budget_falls_back(image: Raster)
    requires
        forall|attempt: nat|
            attempt < 3 ==> every_stream_fills_a_kilobyte(
                #[trigger] nth_attempt_image(prechecked(image, 0), attempt),
            ),
    ensures
        compress_outcome(image, 0) == fallback_outcome(
            nth_attempt_image(prechecked(image, 0), 2),
        ),
{
    let base = prechecked(image, 0);
    assert forall|attempt: nat| attempt < 3 implies search_outcome(
        #[trigger] nth_attempt_image(base, attempt),
        0,
    ).len() == 0 by {
        let scaled = nth_attempt_image(base, attempt);
        assert(every_stream_fills_a_kilobyte(scaled));
        assert forall|q: int| 5 <= q <= 100 implies !#[trigger] fits_at(
            jpeg_probe(scaled),
            0,
            q,
        ) by {
            assert(jpeg_probe(scaled)(q) == scaled.jpeg(q));
        }
        lemma_nothing_fits(SearchView::initial(), jpeg_probe(scaled), 0);
    }
    lemma_fallback_when_nothing_fits(image, 0);
}

/// Two calls on the same bytes, budget and host return the same: a result is
/// a function of the three.
pub proof fn lemma_same_input_same_output(
    first: Result<Vec<u8>, CompressError>,
    second: Result<Vec<u8>, CompressError>,
    bytes: Seq<u8>,
    target_kb: nat,
    hostname: Seq<char>,
)
    requires
        outcome_view(first) == exact_outcome(bytes, target_kb, hostname),
        outcome_view(second) == exact_outcome(bytes, target_kb, hostname),
    ensures
        outcome_view(first) == outcome_view(second),
        first is Ok ==> second is Ok && first->Ok_0@ == second->Ok_0@,
        first is Err ==> second is Err && first->Err_0 == second->Err_0,
{
}

/// A larger budget never yields a smaller result, where neither budget needs a
/// resize: both start from the same image, its streams grow with the quality,
/// and the smaller budget is met at the lowest quality.
pub proof fn lemma_result_grows_with_budget(image: Raster, smaller_kb: nat, larger_kb: nat)
    requires
        smaller_kb <= larger_kb,
        prechecked(image, smaller_kb) == prechecked(image, larger_kb),
        sizes_grow_with_quality(jpeg_probe(prechecked(image, smaller_kb)), 5, 100),
        is_fit(prechecked(image, smaller_kb).jpeg(5), smaller_kb),
    ensures
        compress_outcome(image, smaller_kb) is Ok,
        compress_outcome(image, larger_kb) is Ok,
        compress_outcome(image, smaller_kb)->Ok_0.len() <= compress_outcome(
            image,
            larger_kb,
        )->Ok_0.len(),
{
    let base = prechecked(image, smaller_kb);
    let probe = jpeg_probe(base);
    assert(attempt_image(base, base, 0) == base);
    assert(fits_at(probe, smaller_kb, 5));
    lemma_larger_budget_never_shrinks(probe, smaller_kb, larger_kb);
}

/// A host that is not allowed gets nothing, whatever the image and the budget.
pub proof fn lemma_denied_host_gets_nothing(bytes: Seq<u8>, target_kb: nat, hostname: Seq<char>)
    requires
        !host_allowed(hostname),
    ensures
        exact_outcome(bytes, target_kb, hostname) == Ok::<Seq<u8>, CompressError>(Seq::empty()),
{
}

/// Bytes that are no image yield nothing, whatever the budget and the host.
pub proof fn lemma_malformed_input_gets_nothing(
    bytes: Seq<u8>,
    target_kb: nat,
    hostname: Seq<char>,
)
    requires
        decoded(bytes) is None,
    ensures
        exact_outcome(bytes, target_kb, hostname) == Ok::<Seq<u8>, CompressError>(Seq::empty()),
{
}

} // verus!
