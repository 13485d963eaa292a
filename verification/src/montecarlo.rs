//! Monte-Carlo estimator primitives.
//!
//! A [`Sample`] pairs a radiance value with the probability of having drawn
//! it; samples compose so that chained stochastic contributions multiply
//! their probabilities. An [`Estimator`] accumulates `value / probability`
//! and divides by the sample count on finalization — the standard unbiased
//! importance-sampling estimator. Feeding it any number of certain samples
//! of one value returns that value exactly (see
//! [`lemma_estimator_round_trip`]).

use vstd::prelude::*;
use crate::fx;
use crate::fx::Fx;
use crate::lighting::{spec_rad_add, spec_rad_divs, spec_rad_mul, Albedo, Radiance};

verus! {

/// A radiance value paired with the probability of having sampled it.
#[derive(Clone, Copy, Debug)]
pub struct Sample {
    /// The sampled value.
    pub value: Radiance,
    /// The probability weight of the draw.
    pub probability: Fx,
}

/// What `Sample::add` returns: values add and, the draws being assumed
/// independent, probabilities multiply.
pub open spec fn spec_sample_add(a: Sample, o: Sample) -> Sample {
    Sample {
        value: spec_rad_add(a.value, o.value),
        probability: fx::spec_mul(a.probability as int, o.probability as int) as i64,
    }
}

/// What `Sample::mul` returns: the value is absorbed by the factor and the
/// probability picks up the factor's own draw probability.
pub open spec fn spec_sample_mul(a: Sample, factor: Albedo, probability: int) -> Sample {
    Sample {
        value: spec_rad_mul(a.value, factor),
        probability: fx::spec_mul(a.probability as int, probability) as i64,
    }
}

impl Sample {
    /// Creates a new `Sample`.
    pub fn new(value: Radiance, probability: Fx) -> (s: Sample)
        ensures
            s == (Sample { value, probability }),
    {
        Sample { value, probability }
    }

    /// A certain sample: the value was observed with probability one.
    pub fn from(value: Radiance) -> (s: Sample)
        ensures
            s == (Sample { value, probability: fx::ONE }),
    {
        Sample { value, probability: fx::ONE }
    }

    /// Compose with an independent additive contribution.
    pub fn add(self, o: Sample) -> (s: Sample)
        ensures
            s == spec_sample_add(self, o),
    {
        Sample {
            value: self.value.add(o.value),
            probability: fx::mul(self.probability, o.probability),
        }
    }

    /// Compose with an independent multiplicative factor.
    pub fn mul(self, factor: Albedo, probability: Fx) -> (s: Sample)
        ensures
            s == spec_sample_mul(self, factor, probability as int),
    {
        Sample {
            value: self.value.mul(factor),
            probability: fx::mul(self.probability, probability),
        }
    }
}

/// A running importance-weighted sum of samples.
#[derive(Clone, Copy, Debug)]
pub struct Estimator {
    /// The sum of `value / probability` over the accumulated samples.
    pub value: Radiance,
    /// How many samples were accumulated.
    pub n: u32,
}

/// What `Estimator::add` does to the state.
pub open spec fn spec_est_add(e: Estimator, s: Sample) -> Estimator {
    Estimator {
        value: spec_rad_add(e.value, spec_rad_divs(s.value, s.probability as int)),
        n: (e.n + 1) as u32,
    }
}

/// What `Estimator::value` returns: the accumulated sum divided by the
/// sample count.
pub open spec fn spec_est_value(e: Estimator) -> Radiance {
    spec_rad_divs(e.value, fx::clip(e.n * (fx::ONE as int)))
}

impl Estimator {
    /// Creates an empty `Estimator`.
    pub fn new() -> (e: Estimator)
        ensures
            e.value == (Radiance { r: 0i64, g: 0i64, b: 0i64 }),
            e.n == 0u32,
    {
        Estimator { value: Radiance::none(), n: 0 }
    }

    /// Accumulate one sample, importance-weighted by its probability.
    pub fn add(&mut self, sample: Sample)
        requires
            old(self).n < u32::MAX,
        ensures
            *final(self) == spec_est_add(*old(self), sample),
    {
        self.value = self.value.add(sample.value.divs(sample.probability));
        self.n = self.n + 1;
    }

    /// The unbiased mean of the accumulated samples. At least one sample
    /// must have been accumulated.
    pub fn value(self) -> (r: Radiance)
        requires
            self.n != 0,
        ensures
            r == spec_est_value(self),
    {
        self.value.divs(fx::of_int(self.n as i64))
    }
}

impl Default for Sample {
    /// A certain observation of darkness.
    fn default() -> (s: Sample)
        ensures
            s == (Sample { value: Radiance { r: 0i64, g: 0i64, b: 0i64 }, probability: fx::ONE }),
    {
        Sample::from(Radiance::none())
    }
}

impl Default for Estimator {
    /// An empty estimator.
    fn default() -> (e: Estimator)
        ensures
            e.value == (Radiance { r: 0i64, g: 0i64, b: 0i64 }),
            e.n == 0u32,
    {
        Estimator::new()
    }
}

/// The estimator state after feeding the first `n` of a sequence of
/// samples into a fresh estimator.
pub open spec fn spec_accumulate(ss: Seq<Sample>, n: nat) -> Estimator
    decreases n,
{
    if n == 0 {
        Estimator { value: Radiance { r: 0i64, g: 0i64, b: 0i64 }, n: 0u32 }
    } else {
        spec_est_add(spec_accumulate(ss, (n - 1) as nat), ss[n - 1])
    }
}

/// Accumulation reads only the first `n` samples, so appending one more
/// leaves it unchanged.
pub proof fn lemma_accumulate_push(ss: Seq<Sample>, s: Sample, n: nat)
    requires
        n <= ss.len(),
    ensures
        spec_accumulate(ss.push(s), n) == spec_accumulate(ss, n),
    decreases n,
{
    if n > 0 {
        lemma_accumulate_push(ss, s, (n - 1) as nat);
    }
}

/// The estimator state after feeding `k` certain samples of the value `v`
/// into a fresh estimator.
pub open spec fn spec_feed(v: Radiance, k: nat) -> Estimator
    decreases k,
{
    if k == 0 {
        Estimator { value: Radiance { r: 0i64, g: 0i64, b: 0i64 }, n: 0u32 }
    } else {
        spec_est_add(spec_feed(v, (k - 1) as nat), Sample { value: v, probability: fx::ONE })
    }
}

/// While feeding certain samples of one value, the estimator's sum is an
/// exact whole multiple of the value.
proof fn lemma_feed_accumulates(v: Radiance, k: nat)
    requires
        k <= u32::MAX,
        fx::MIN <= k * v.r <= fx::MAX,
        fx::MIN <= k * v.g <= fx::MAX,
        fx::MIN <= k * v.b <= fx::MAX,
    ensures
        spec_feed(v, k).n == k,
        spec_feed(v, k).value == (Radiance {
            r: (k * v.r) as i64,
            g: (k * v.g) as i64,
            b: (k * v.b) as i64,
        }),
    decreases k,
{
    if k == 0 {
        assert(k * v.r == 0) by (nonlinear_arith)
            requires
                k == 0;
        assert(k * v.g == 0) by (nonlinear_arith)
            requires
                k == 0;
        assert(k * v.b == 0) by (nonlinear_arith)
            requires
                k == 0;
    } else {
        let j = (k - 1) as nat;
        assert(fx::MIN <= v.r <= fx::MAX && fx::MIN <= v.g <= fx::MAX && fx::MIN <= v.b
            <= fx::MAX) by (nonlinear_arith)
            requires
                1 <= k,
                fx::MIN <= k * v.r,
                fx::MIN <= k * v.g,
                fx::MIN <= k * v.b,
                i64::MIN <= v.r <= i64::MAX,
                i64::MIN <= v.g <= i64::MAX,
                i64::MIN <= v.b <= i64::MAX;
        assert(fx::MIN <= j * v.r <= fx::MAX && fx::MIN <= j * v.g <= fx::MAX && fx::MIN <= j
            * v.b <= fx::MAX) by (nonlinear_arith)
            requires
                j + 1 == k,
                0 <= j,
                fx::MIN <= k * v.r <= fx::MAX,
                fx::MIN <= k * v.g <= fx::MAX,
                fx::MIN <= k * v.b <= fx::MAX,
                fx::MIN <= v.r <= fx::MAX,
                fx::MIN <= v.g <= fx::MAX,
                fx::MIN <= v.b <= fx::MAX;
        lemma_feed_accumulates(v, j);
        fx::lemma_div_one(v.r as int);
        fx::lemma_div_one(v.g as int);
        fx::lemma_div_one(v.b as int);
        assert(j * v.r + v.r == k * v.r) by (nonlinear_arith)
            requires
                j + 1 == k;
        assert(j * v.g + v.g == k * v.g) by (nonlinear_arith)
            requires
                j + 1 == k;
        assert(j * v.b + v.b == k * v.b) by (nonlinear_arith)
            requires
                j + 1 == k;
        assert(spec_rad_divs(v, fx::ONE as int) == v);
    }
}

/// Feeding `k` certain samples of one value `v` and finalizing returns `v`
/// exactly: the mean of a constant is the constant.
pub proof fn lemma_estimator_round_trip(v: Radiance, k: nat)
    requires
        1 <= k <= u32::MAX,
        fx::MIN <= k * v.r <= fx::MAX,
        fx::MIN <= k * v.g <= fx::MAX,
        fx::MIN <= k * v.b <= fx::MAX,
    ensures
        spec_feed(v, k).n == k,
        spec_est_value(spec_feed(v, k)) == v,
{
    lemma_feed_accumulates(v, k);
    assert(fx::MIN <= v.r <= fx::MAX && fx::MIN <= v.g <= fx::MAX && fx::MIN <= v.b <= fx::MAX)
        by (nonlinear_arith)
        requires
            1 <= k,
            fx::MIN <= k * v.r,
            fx::MIN <= k * v.g,
            fx::MIN <= k * v.b,
            i64::MIN <= v.r <= i64::MAX,
            i64::MIN <= v.g <= i64::MAX,
            i64::MIN <= v.b <= i64::MAX;
    assert(k * (fx::ONE as int) <= fx::MAX) by (nonlinear_arith)
        requires
            1 <= k <= u32::MAX;
    fx::lemma_div_multiple(v.r as int, k as int);
    fx::lemma_div_multiple(v.g as int, k as int);
    fx::lemma_div_multiple(v.b as int, k as int);
}

} // verus!
