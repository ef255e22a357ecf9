//! The quality search: a binary search over the JPEG quality for the highest
//! setting whose output fits a size budget.

use crate::raster::{DecodedImage, Raster};
use vstd::prelude::*;

verus! {

/// The lowest quality that the search probes.
pub const MIN_QUALITY: u8 = 5;

/// The highest quality that the search probes.
pub const MAX_QUALITY: u8 = 100;

/// Bytes in a kilobyte, the unit of the budget.
pub const BYTES_PER_KB: usize = 1024;

/// A probe fits when the encoder produced something and its size in whole
/// kilobytes, rounded down, is within the budget.
pub open spec fn is_fit(candidate: Option<Seq<u8>>, target_kb: nat) -> bool {
    candidate matches Some(bytes) && bytes.len() > 0 && bytes.len() / 1024 <= target_kb
}

/// The model of what a probe returned.
pub open spec fn candidate_view(candidate: Option<Vec<u8>>) -> Option<Seq<u8>> {
    match candidate {
        Some(bytes) => Some(bytes@),
        None => None,
    }
}

/// The probes of one image: its JPEG stream at each quality.
pub open spec fn jpeg_probe(image: Raster) -> spec_fn(int) -> Option<Seq<u8>> {
    |quality: int| image.jpeg(quality)
}

/// The model of a search in progress: the qualities `low..=high` are still
/// open, and `best` is the latest probe that fit (empty while none has).
pub struct SearchView {
    pub low: int,
    pub high: int,
    pub best: Seq<u8>,
}

impl SearchView {
    /// The search as it starts.
    pub open spec fn initial() -> SearchView {
        SearchView { low: 5, high: 100, best: Seq::empty() }
    }

    /// The bounds stay within the quality range: `low` never falls below the
    /// lowest quality and `high` never rises above the highest.
    pub open spec fn in_range(self) -> bool {
        5 <= self.low <= 101 && 4 <= self.high <= 100
    }

    /// No quality is left to probe.
    pub open spec fn finished(self) -> bool {
        self.low > self.high
    }

    /// The quality to probe next.
    pub open spec fn midpoint(self) -> int {
        (self.low + self.high) / 2
    }

    /// The search after the probe at `midpoint()` returned `candidate`. A fit
    /// becomes the best so far and the search goes on above it; a miss sends the
    /// search below it.
    pub open spec fn step(self, candidate: Option<Seq<u8>>, target_kb: nat) -> SearchView {
        if self.finished() {
            self
        } else if is_fit(candidate, target_kb) {
            SearchView { low: self.midpoint() + 1, high: self.high, best: candidate->0 }
        } else {
            SearchView { low: self.low, high: self.midpoint() - 1, best: self.best }
        }
    }

    /// What the search returns when every further probe at quality `q` yields
    /// `probe(q)`.
    pub open spec fn run(self, probe: spec_fn(int) -> Option<Seq<u8>>, target_kb: nat) -> Seq<u8>
        decreases self.high - self.low + 1,
    {
        if self.finished() {
            self.best
        } else {
            self.step(probe(self.midpoint()), target_kb).run(probe, target_kb)
        }
    }

    /// How many probes the search still makes.
    pub open spec fn probes(self, probe: spec_fn(int) -> Option<Seq<u8>>, target_kb: nat) -> nat
        decreases self.high - self.low + 1,
    {
        if self.finished() {
            0
        } else {
            1 + self.step(probe(self.midpoint()), target_kb).probes(probe, target_kb)
        }
    }
}

/// What the quality search returns for `image` under a budget of `target_kb`
/// kilobytes: the stream of the last probe that fit, or nothing.
pub open spec fn search_outcome(image: Raster, target_kb: nat) -> Seq<u8> {
    SearchView::initial().run(jpeg_probe(image), target_kb)
}

/// Whether `candidate` fits a budget of `target_kb` kilobytes.
pub fn fits_budget(candidate: &Option<Vec<u8>>, target_kb: usize) -> (fit: bool)
    ensures
        fit == is_fit(candidate_view(*candidate), target_kb as nat),
{
    match candidate {
        Some(bytes) => bytes.len() > 0 && bytes.len() / BYTES_PER_KB <= target_kb,
        None => false,
    }
}

/// A search in progress.
pub struct SearchState {
    low: u8,
    high: u8,
    best: Vec<u8>,
}

impl View for SearchState {
    type V = SearchView;

    closed spec fn view(&self) -> SearchView {
        SearchView { low: self.low as int, high: self.high as int, best: self.best@ }
    }
}

impl SearchState {
    #[verifier::type_invariant]
    spec fn in_bounds(self) -> bool {
        self@.in_range()
    }

    /// A search over the whole quality range, with nothing found yet.
    pub fn new() -> (state: SearchState)
        ensures
            state@ == SearchView::initial(),
    {
        SearchState { low: MIN_QUALITY, high: MAX_QUALITY, best: Vec::new() }
    }

    /// The quality to probe next, or `None` once the search is over. Every
    /// quality that is probed lies within the quality range.
    pub fn next_quality(&self) -> (quality: Option<u8>)
        ensures
            self@.in_range(),
            quality is None <==> self@.finished(),
            quality matches Some(q) ==> q == self@.midpoint() && MIN_QUALITY <= q <= MAX_QUALITY,
    {
        proof {
            use_type_invariant(self);
        }
        if self.low > self.high {
            None
        } else {
            Some((self.low + self.high) / 2)
        }
    }

    /// Takes in what the probe at `next_quality()` returned. A finished search
    /// stays as it is.
    pub fn record(self, candidate: Option<Vec<u8>>, target_kb: usize) -> (next: SearchState)
        ensures
            next@ == self@.step(candidate_view(candidate), target_kb as nat),
            next@.in_range(),
    {
        proof {
            use_type_invariant(&self);
        }
        if self.low > self.high {
            return self;
        }
        let mid = (self.low + self.high) / 2;
        if fits_budget(&candidate, target_kb) {
            match candidate {
                Some(bytes) => SearchState { low: mid + 1, high: self.high, best: bytes },
                None => self,
            }
        } else {
            SearchState { low: self.low, high: mid - 1, best: self.best }
        }
    }

    /// The best stream found so far; empty while no probe has fit.
    pub fn into_best(self) -> (best: Vec<u8>)
        ensures
            best@ == self@.best,
    {
        self.best
    }
}

/// Searches the qualities from `MIN_QUALITY` to `MAX_QUALITY` for the highest
/// one at which `image` encodes within `target_kb` kilobytes. Returns that
/// stream, or an empty vector where no probe fit.
pub fn search_quality(image: &DecodedImage, target_kb: usize) -> (best: Vec<u8>)
    ensures
        best@ == search_outcome(image@, target_kb as nat),
{
    let mut state = SearchState::new();
    loop
        invariant
            state@.run(jpeg_probe(image@), target_kb as nat) == search_outcome(
                image@,
                target_kb as nat,
            ),
        ensures
            state@.finished(),
        decreases state@.high - state@.low + 1,
    {
        match state.next_quality() {
            None => {
                break ;
            },
            Some(quality) => {
                let candidate = image.encode(quality);
                state = state.record(candidate, target_kb);
            },
        }
    }
    state.into_best()
}

/// The probe at `quality` fits the budget.
pub open spec fn fits_at(probe: spec_fn(int) -> Option<Seq<u8>>, target_kb: nat, quality: int) -> bool {
    is_fit(probe(quality), target_kb)
}

/// Between `low` and `high`, whatever fits at one quality fits at every lower
/// one: the assumption under which the search finds the best quality.
pub open spec fn fit_is_monotone(
    probe: spec_fn(int) -> Option<Seq<u8>>,
    target_kb: nat,
    low: int,
    high: int,
) -> bool {
    forall|q1: int, q2: int|
        low <= q1 <= q2 <= high && #[trigger] fits_at(probe, target_kb, q2) ==> #[trigger] fits_at(
            probe,
            target_kb,
            q1,
        )
}

/// Between `low` and `high`, every probe yields a stream, none is empty, and a
/// higher quality never yields a shorter one.
pub open spec fn sizes_grow_with_quality(
    probe: spec_fn(int) -> Option<Seq<u8>>,
    low: int,
    high: int,
) -> bool {
    &&& forall|q: int| low <= q <= high ==> (#[trigger] probe(q)) is Some && probe(q)->0.len() > 0
    &&& forall|q1: int, q2: int|
        low <= q1 <= q2 <= high ==> (#[trigger] probe(q1))->0.len() <= (#[trigger] probe(q2))->0.len()
}

/// `2^k - 1`: the widest range that `k` probes can exhaust.
pub open spec fn widest_range(k: nat) -> int
    decreases k,
{
    if k == 0 {
        0
    } else {
        2 * widest_range((k - 1) as nat) + 1
    }
}

/// A search within the quality range stays within it: the quality that it
/// probes next is one of the range, and so are the bounds after the probe.
pub proof fn lemma_probes_stay_in_range(
    state: SearchView,
    candidate: Option<Seq<u8>>,
    target_kb: nat,
)
    requires
        state.in_range(),
    ensures
        !state.finished() ==> 5 <= state.midpoint() <= 100,
        state.step(candidate, target_kb).in_range(),
{
}

/// Whatever the encoder does, the search returns either the best it started
/// with or the stream of a probe that fits, at a quality within its range.
pub proof fn lemma_result_is_a_fit(
    start: SearchView,
    probe: spec_fn(int) -> Option<Seq<u8>>,
    target_kb: nat,
)
    ensures
        start.run(probe, target_kb) == start.best || exists|q: int|
            start.low <= q <= start.high && #[trigger] fits_at(probe, target_kb, q) && probe(q)
                == Some(start.run(probe, target_kb)),
    decreases start.high - start.low + 1,
{
    if !start.finished() {
        let mid = start.midpoint();
        let next = start.step(probe(mid), target_kb);
        lemma_result_is_a_fit(next, probe, target_kb);
        let result = next.run(probe, target_kb);
        if result == next.best {
            if fits_at(probe, target_kb, mid) {
                assert(start.low <= mid <= start.high && fits_at(probe, target_kb, mid) && probe(
                    mid,
                ) == Some(result));
            }
        } else {
            let q = choose|q: int|
                next.low <= q <= next.high && #[trigger] fits_at(probe, target_kb, q) && probe(q)
                    == Some(result);
            assert(start.low <= q <= start.high && fits_at(probe, target_kb, q) && probe(q)
                == Some(result));
        }
    }
}

/// Where no quality of the range fits, the search keeps the best it started
/// with: from the full range, it returns nothing.
pub proof fn lemma_nothing_fits(
    start: SearchView,
    probe: spec_fn(int) -> Option<Seq<u8>>,
    target_kb: nat,
)
    requires
        forall|q: int| start.low <= q <= start.high ==> !#[trigger] fits_at(probe, target_kb, q),
    ensures
        start.run(probe, target_kb) == start.best,
    decreases start.high - start.low + 1,
{
    if !start.finished() {
        let mid = start.midpoint();
        assert(!fits_at(probe, target_kb, mid));
        lemma_nothing_fits(start.step(probe(mid), target_kb), probe, target_kb);
    }
}

/// Where fitting is monotone, the search returns the stream of the highest
/// quality that fits: `q` fits and the next quality up, if there is one, does
/// not.
pub proof fn lemma_search_is_optimal(
    start: SearchView,
    probe: spec_fn(int) -> Option<Seq<u8>>,
    target_kb: nat,
    q: int,
)
    requires
        fit_is_monotone(probe, target_kb, start.low, start.high),
        start.low <= q <= start.high,
        fits_at(probe, target_kb, q),
        q == start.high || !fits_at(probe, target_kb, q + 1),
    ensures
        probe(q) == Some(start.run(probe, target_kb)),
    decreases start.high - start.low + 1,
{
    let mid = start.midpoint();
    let next = start.step(probe(mid), target_kb);
    if fits_at(probe, target_kb, mid) {
        if mid > q {
            assert(fits_at(probe, target_kb, q + 1));
        }
        if mid == q {
            assert forall|r: int| next.low <= r <= next.high implies !#[trigger] fits_at(
                probe,
                target_kb,
                r,
            ) by {
                if fits_at(probe, target_kb, r) {
                    assert(fits_at(probe, target_kb, q + 1));
                }
            }
            lemma_nothing_fits(next, probe, target_kb);
        } else {
            lemma_search_is_optimal(next, probe, target_kb, q);
        }
    } else {
        if q >= mid {
            assert(fits_at(probe, target_kb, mid));
        }
        lemma_search_is_optimal(next, probe, target_kb, q);
    }
}

/// Where fitting is monotone and the highest quality of the range fits, the
/// search returns the stream of that quality, and it is within the budget.
pub proof fn lemma_top_quality_wins(
    start: SearchView,
    probe: spec_fn(int) -> Option<Seq<u8>>,
    target_kb: nat,
)
    requires
        start.low <= start.high,
        fit_is_monotone(probe, target_kb, start.low, start.high),
        fits_at(probe, target_kb, start.high),
    ensures
        probe(start.high) == Some(start.run(probe, target_kb)),
        start.run(probe, target_kb).len() > 0,
        start.run(probe, target_kb).len() / 1024 <= target_kb,
{
    lemma_search_is_optimal(start, probe, target_kb, start.high);
}

/// A range of at most `2^k - 1` qualities is exhausted within `k` probes,
/// whatever the encoder does.
pub proof fn lemma_probes_bounded(
    start: SearchView,
    probe: spec_fn(int) -> Option<Seq<u8>>,
    target_kb: nat,
    k: nat,
)
    requires
        start.high - start.low + 1 <= widest_range(k),
    ensures
        start.probes(probe, target_kb) <= k,
    decreases k,
{
    if !start.finished() {
        lemma_probes_bounded(
            start.step(probe(start.midpoint()), target_kb),
            probe,
            target_kb,
            (k - 1) as nat,
        );
    }
}

/// The search over the full quality range makes at most seven probes.
pub proof fn lemma_at_most_seven_probes(probe: spec_fn(int) -> Option<Seq<u8>>, target_kb: nat)
    ensures
        SearchView::initial().probes(probe, target_kb) <= 7,
{
    assert(widest_range(7) == 127) by {
        reveal_with_fuel(widest_range, 8);
    }
    lemma_probes_bounded(SearchView::initial(), probe, target_kb, 7);
}

/// Where the lowest quality of a range fits, some quality of the range is the
/// last that fits: it fits and the next one up, if there is one, does not.
pub proof fn lemma_last_fit_exists(
    probe: spec_fn(int) -> Option<Seq<u8>>,
    target_kb: nat,
    low: int,
    high: int,
) -> (q: int)
    requires
        low <= high,
        fits_at(probe, target_kb, low),
    ensures
        low <= q <= high,
        fits_at(probe, target_kb, q),
        q == high || !fits_at(probe, target_kb, q + 1),
    decreases high - low,
{
    if fits_at(probe, target_kb, high) {
        high
    } else {
        lemma_last_fit_exists(probe, target_kb, low, high - 1)
    }
}

/// Where streams grow with the quality, a larger budget never yields a
/// shorter result, as long as the smaller budget is met at the lowest quality.
pub proof fn lemma_larger_budget_never_shrinks(
    probe: spec_fn(int) -> Option<Seq<u8>>,
    smaller_kb: nat,
    larger_kb: nat,
)
    requires
        smaller_kb <= larger_kb,
        sizes_grow_with_quality(probe, 5, 100),
        fits_at(probe, smaller_kb, 5),
    ensures
        0 < SearchView::initial().run(probe, smaller_kb).len() <= SearchView::initial().run(
            probe,
            larger_kb,
        ).len(),
{
    lemma_sizes_make_fit_monotone(probe, smaller_kb, 5, 100);
    lemma_sizes_make_fit_monotone(probe, larger_kb, 5, 100);
    let q1 = lemma_last_fit_exists(probe, smaller_kb, 5, 100);
    let q2 = lemma_last_fit_exists(probe, larger_kb, 5, 100);
    lemma_search_is_optimal(SearchView::initial(), probe, smaller_kb, q1);
    lemma_search_is_optimal(SearchView::initial(), probe, larger_kb, q2);
    if q1 > q2 {
        assert(fits_at(probe, larger_kb, q1));
        assert(fits_at(probe, larger_kb, q2 + 1));
    }
    assert(probe(q1)->0.len() <= probe(q2)->0.len());
}

/// Where streams grow with the quality, fitting is monotone.
pub proof fn lemma_sizes_make_fit_monotone(
    probe: spec_fn(int) -> Option<Seq<u8>>,
    target_kb: nat,
    low: int,
    high: int,
)
    requires
        sizes_grow_with_quality(probe, low, high),
    ensures
        fit_is_monotone(probe, target_kb, low, high),
{
    assert forall|q1: int, q2: int|
        low <= q1 <= q2 <= high && #[trigger] fits_at(probe, target_kb, q2) implies #[trigger] fits_at(
        probe,
        target_kb,
        q1,
    ) by {
        assert(probe(q1)->0.len() <= probe(q2)->0.len());
        assert(probe(q1) is Some && probe(q1)->0.len() > 0);
    }
}

} // verus!
