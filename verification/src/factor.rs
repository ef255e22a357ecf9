//! The resize factor: the scale, relative to the base image, at which a resize
//! attempt works. It starts at one and loses a quarter with every shrink.

use vstd::prelude::*;

verus! {

/// The most shrinks that a factor can take: beyond it the scaled dimension of
/// the widest image would not fit the arithmetic.
pub const MAX_SHRINKS: u32 = 20;

/// `3^k`.
pub open spec fn three_to(k: nat) -> nat
    decreases k,
{
    if k == 0 {
        1
    } else {
        3 * three_to((k - 1) as nat)
    }
}

/// `4^k`.
pub open spec fn four_to(k: nat) -> nat
    decreases k,
{
    if k == 0 {
        1
    } else {
        4 * four_to((k - 1) as nat)
    }
}

/// The model of a factor: how often it was shrunk. Its value is
/// `(3/4)^shrinks`.
pub struct FactorView {
    pub shrinks: nat,
}

impl FactorView {
    /// The numerator of the factor.
    pub open spec fn numer(self) -> nat {
        three_to(self.shrinks)
    }

    /// The denominator of the factor.
    pub open spec fn denom(self) -> nat {
        four_to(self.shrinks)
    }

    /// `dim` scaled by the factor, rounded down.
    pub open spec fn apply(self, dim: nat) -> nat {
        dim * self.numer() / self.denom()
    }

    /// The factor is the whole: nothing was shrunk yet.
    pub open spec fn is_one(self) -> bool {
        self.shrinks == 0
    }

    /// This factor is smaller than `other`, as a fraction.
    pub open spec fn less_than(self, other: FactorView) -> bool {
        self.numer() * other.denom() < other.numer() * self.denom()
    }
}

/// `3^k <= 3^20` for every `k` up to twenty, and `3^k <= 4^k`.
pub proof fn lemma_powers_bounded(k: nat)
    requires
        k <= 20,
    ensures
        1 <= three_to(k) <= 3486784401,
        three_to(k) <= four_to(k) <= 1099511627776,
    decreases 20 - k,
{
    if k == 20 {
        assert(three_to(20) == 3486784401) by {
            reveal_with_fuel(three_to, 21);
        }
        assert(four_to(20) == 1099511627776) by {
            reveal_with_fuel(four_to, 21);
        }
    } else {
        lemma_powers_bounded(k + 1);
        lemma_powers_positive(k);
    }
}

/// Both powers are positive, and `3^k <= 4^k`.
pub proof fn lemma_powers_positive(k: nat)
    ensures
        1 <= three_to(k) <= four_to(k),
    decreases k,
{
    if k > 0 {
        lemma_powers_positive((k - 1) as nat);
    }
}

/// A scale factor between resize attempts.
#[derive(Clone, Copy, Debug)]
pub struct ResizeFactor {
    shrinks: u32,
    numer: u64,
    denom: u64,
}

impl View for ResizeFactor {
    type V = FactorView;

    closed spec fn view(&self) -> FactorView {
        FactorView { shrinks: self.shrinks as nat }
    }
}

impl ResizeFactor {
    #[verifier::type_invariant]
    spec fn consistent(self) -> bool {
        &&& self.shrinks <= MAX_SHRINKS
        &&& self.numer == three_to(self.shrinks as nat)
        &&& self.denom == four_to(self.shrinks as nat)
    }

    /// The factor one.
    pub fn one() -> (factor: ResizeFactor)
        ensures
            factor@.shrinks == 0,
    {
        ResizeFactor { shrinks: 0, numer: 1, denom: 1 }
    }

    /// How often the factor was shrunk.
    pub fn shrinks(&self) -> (count: u32)
        ensures
            count == self@.shrinks,
            count <= MAX_SHRINKS,
    {
        proof {
            use_type_invariant(self);
        }
        self.shrinks
    }

    /// Whether the factor is still one.
    pub fn is_one(&self) -> (whole: bool)
        ensures
            whole == self@.is_one(),
    {
        self.shrinks == 0
    }

    /// Three quarters of this factor.
    pub fn shrink(&self) -> (next: ResizeFactor)
        requires
            self@.shrinks < MAX_SHRINKS,
        ensures
            next@.shrinks == self@.shrinks + 1,
    {
        proof {
            use_type_invariant(self);
            lemma_powers_bounded(self.shrinks as nat);
            lemma_powers_bounded((self.shrinks + 1) as nat);
        }
        ResizeFactor {
            shrinks: self.shrinks + 1,
            numer: self.numer * 3,
            denom: self.denom * 4,
        }
    }

    /// `dim` scaled by the factor, rounded down.
    pub fn apply(&self, dim: u32) -> (scaled: u32)
        ensures
            scaled == self@.apply(dim as nat),
            scaled <= dim,
    {
        proof {
            use_type_invariant(self);
            lemma_powers_bounded(self.shrinks as nat);
            assert(dim * self.numer <= 0xFFFF_FFFF * 3486784401) by (nonlinear_arith)
                requires
                    dim <= 0xFFFF_FFFF,
                    self.numer <= 3486784401,
            ;
            assert(dim * self.numer / (self.denom as int) <= dim) by (nonlinear_arith)
                requires
                    1 <= self.numer <= self.denom,
                    0 <= dim,
            ;
        }
        ((dim as u64) * self.numer / self.denom) as u32
    }
}

/// The factors form a strictly decreasing sequence: every shrink yields a
/// smaller fraction.
pub proof fn lemma_shrink_decreases(factor: FactorView)
    ensures
        (FactorView { shrinks: factor.shrinks + 1 }).less_than(factor),
{
    lemma_powers_positive(factor.shrinks);
    let n = three_to(factor.shrinks);
    let d = four_to(factor.shrinks);
    assert(three_to(factor.shrinks + 1) == 3 * n);
    assert(four_to(factor.shrinks + 1) == 4 * d);
    assert((3 * n) * d < n * (4 * d)) by (nonlinear_arith)
        requires
            n >= 1,
            d >= 1,
    ;
}

/// The factor starts at one: applied to a dimension, it leaves it as it is.
pub proof fn lemma_one_is_identity(dim: nat)
    ensures
        (FactorView { shrinks: 0 }).apply(dim) == dim,
{
    assert(three_to(0) == 1 && four_to(0) == 1);
    assert(dim * 1 / 1 == dim);
}

} // verus!
