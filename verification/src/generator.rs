//! The stochastic generator primitives: constant, uniform, weighted-discrete,
//! atomic counter, Zipfian and latest-skewed value producers. Every variant
//! may be called concurrently through `&self`; mutable state is confined to
//! atomics.
use vstd::prelude::*;

use crate::fixed::fp_add;
use crate::fixed::fp_div;
use crate::fixed::fp_mul;
use crate::fixed::fp_pow;
use crate::fixed::fp_recip;
use crate::fixed::fp_sub;
use crate::fixed::ppm_to_fp;
use crate::fixed::spec_fp_add;
use crate::fixed::spec_fp_div;
use crate::fixed::spec_fp_mul;
use crate::fixed::spec_fp_pow;
use crate::fixed::spec_fp_recip;
use crate::fixed::spec_fp_sub;
use crate::fixed::spec_ppm_to_fp;
use crate::fixed::FP_HALF;
use crate::fixed::FP_ONE;
use crate::result::Error;
use crate::rng::rand_index;
use std::sync::atomic::AtomicU64;
use std::sync::atomic::Ordering;
use std::sync::Arc;
use vstd::string::StringExecFns;

verus! {

/// The skew exponent used for latest-skewed sampling, in parts per million.
pub const ZIPFIAN_CONSTANT_PPM: u64 = 990000;

/// A producer of values of type `T`, callable from any thread at any time.
pub trait Generator<T> {
    fn next(&self) -> T;
}

/// Always returns the same value.
pub struct ConstGenerator<T> {
    pub val: T,
}

impl<T> ConstGenerator<T> {
    pub fn new(val: T) -> (r: Self)
        ensures
            r.val == val,
    {
        Self { val }
    }
}

impl<T: Copy> ConstGenerator<T> {
    /// Draw the constant: every call returns the constructor's value.
    pub fn next_value(&self) -> (r: T)
        ensures
            r == self.val,
    {
        self.val
    }
}

impl<T: Clone> Generator<T> for ConstGenerator<T> {
    fn next(&self) -> T {
        self.val.clone()
    }
}

/// Independent draws, uniformly distributed over the inclusive range
/// `[low, high]`.
pub struct UniformGenerator {
    pub low: u64,
    pub high: u64,
}

impl UniformGenerator {
    pub open spec fn wf(&self) -> bool {
        self.low <= self.high && self.high - self.low < u64::MAX
    }

    /// Draw one value from the range.
    pub fn next_value(&self) -> (r: u64)
        requires
            self.wf(),
        ensures
            self.low <= r <= self.high,
    {
        self.low + rand_index(self.high - self.low + 1)
    }
}

/// Build a uniform generator over the inclusive range `[min, max]`.
pub fn uniform_gen(min: u64, max: u64) -> (r: Result<UniformGenerator, Error>)
    ensures
        r is Ok <==> min <= max && max - min < u64::MAX,
        r matches Ok(g) ==> g.wf() && g.low == min && g.high == max,
        r matches Err(e) ==> e is InvalidArgument,
{
    if max < min {
        Err(Error::InvalidArgument(String::from_str("max < min")))
    } else if max - min == u64::MAX {
        Err(Error::InvalidArgument(String::from_str("domain too large")))
    } else {
        Ok(UniformGenerator { low: min, high: max })
    }
}

/// The sum of the weights of a weighted value sequence.
pub open spec fn weight_sum<T>(s: Seq<(T, u64)>) -> int
    decreases s.len(),
{
    if s.len() == 0 {
        0
    } else {
        s[0].1 + weight_sum(s.drop_first())
    }
}

/// The index a draw of `r` selects: the first index whose cumulative weight
/// exceeds `r`.
pub open spec fn selected_index<T>(s: Seq<(T, u64)>, r: int) -> int
    decreases s.len(),
{
    if s.len() == 0 {
        0
    } else if r < s[0].1 {
        0
    } else {
        1 + selected_index(s.drop_first(), r - s[0].1)
    }
}

/// True when every weight of the sequence is strictly positive.
pub open spec fn all_weights_positive<T>(s: Seq<(T, u64)>) -> bool {
    forall|i: int| 0 <= i < s.len() ==> s[i].1 > 0
}

/// A nonempty sequence of positive weights has a positive total.
pub proof fn lemma_weight_sum_positive<T>(s: Seq<(T, u64)>)
    requires
        s.len() > 0,
        all_weights_positive(s),
    ensures
        weight_sum(s) > 0,
{
    lemma_weight_sum_nonneg(s.drop_first());
    assert(s[0].1 > 0);
}

pub proof fn lemma_weight_sum_nonneg<T>(s: Seq<(T, u64)>)
    ensures
        weight_sum(s) >= 0,
    decreases s.len(),
{
    if s.len() > 0 {
        lemma_weight_sum_nonneg(s.drop_first());
    }
}

/// A draw below the total weight always selects a valid index.
pub proof fn lemma_selected_index_in_range<T>(s: Seq<(T, u64)>, r: int)
    requires
        0 <= r < weight_sum(s),
    ensures
        0 <= selected_index(s, r) < s.len(),
    decreases s.len(),
{
    if s.len() == 0 {
    } else if r < s[0].1 {
    } else {
        lemma_selected_index_in_range(s.drop_first(), r - s[0].1);
    }
}

/// A draw selects index `i` exactly when it falls inside the `i`-th
/// cumulative-weight window: the draws selecting a value are as many as its
/// weight, so over uniform draws each value is observed in proportion to
/// its weight.
pub proof fn lemma_selected_index_characterizes<T>(s: Seq<(T, u64)>, r: int, i: int)
    requires
        0 <= i < s.len(),
        weight_sum(s.take(i)) <= r < weight_sum(s.take(i + 1)),
    ensures
        selected_index(s, r) == i,
    decreases i,
{
    lemma_weight_sum_take_step(s, i);
    if i == 0 {
        assert(s.take(0) =~= Seq::<(T, u64)>::empty());
    } else {
        assert(s.take(i).drop_first() =~= s.drop_first().take(i - 1));
        assert(s.take(i)[0] == s[0]);
        assert(s.take(i + 1).drop_first() =~= s.drop_first().take(i));
        assert(s.take(i + 1)[0] == s[0]);
        lemma_weight_sum_nonneg(s.drop_first().take(i - 1));
        lemma_selected_index_characterizes(s.drop_first(), r - s[0].1, i - 1);
    }
}

proof fn lemma_weight_sum_take_step<T>(s: Seq<(T, u64)>, i: int)
    requires
        0 <= i < s.len(),
    ensures
        weight_sum(s.take(i + 1)) == weight_sum(s.take(i)) + s[i].1,
    decreases i,
{
    if i == 0 {
        assert(s.take(1).drop_first() =~= s.take(0));
    } else {
        assert(s.take(i + 1).drop_first() =~= s.drop_first().take(i));
        assert(s.take(i).drop_first() =~= s.drop_first().take(i - 1));
        lemma_weight_sum_take_step(s.drop_first(), i - 1);
    }
}

/// Weighted choice over a finite mapping of value to weight, in the order
/// supplied at construction. Weights need not sum to any particular total.
pub struct DiscreteGenerator<T> {
    pub values: Vec<(T, u64)>,
    pub total: u64,
}

impl<T: Copy> DiscreteGenerator<T> {
    pub open spec fn wf(&self) -> bool {
        self.total == weight_sum(self.values@)
    }

    /// The value a draw of `r` selects, walking the weights in order.
    pub fn sample_at(&self, r: u64) -> (v: T)
        requires
            self.wf(),
            r < self.total,
        ensures
            0 <= selected_index(self.values@, r as int) < self.values@.len(),
            v == self.values@[selected_index(self.values@, r as int)].0,
    {
        proof {
            lemma_weight_sum_nonneg(self.values@);
            lemma_selected_index_in_range(self.values@, r as int);
            assert(self.values@.skip(0) =~= self.values@);
        }
        let n = self.values.len();
        let mut i: usize = 0;
        let mut rem: u64 = r;
        loop
            invariant
                self.wf(),
                n == self.values@.len(),
                0 <= i <= n,
                rem < weight_sum(self.values@.skip(i as int)),
                selected_index(self.values@, r as int) == i + selected_index(
                    self.values@.skip(i as int),
                    rem as int,
                ),
            decreases self.values@.len() - i,
        {
            proof {
                lemma_weight_sum_nonneg(self.values@.skip(i as int));
                if i == self.values@.len() {
                    assert(weight_sum(self.values@.skip(i as int)) == 0);
                }
            }
            let w = self.values[i].1;
            proof {
                assert(self.values@.skip(i as int)[0] == self.values@[i as int]);
            }
            if rem < w {
                return self.values[i].0;
            }
            proof {
                assert(self.values@.skip(i as int).drop_first() =~= self.values@.skip(i + 1));
            }
            rem = rem - w;
            i = i + 1;
        }
    }

    /// Draw one value; `None` only when the total weight is zero.
    pub fn next_value(&self) -> (r: Option<T>)
        requires
            self.wf(),
        ensures
            self.total == 0 ==> r is None,
            self.total > 0 ==> (r matches Some(v) && exists|j: int|
                0 <= j < self.values@.len() && v == self.values@[j].0),
    {
        if self.total == 0 {
            None
        } else {
            let u = rand_index(self.total);
            let v = self.sample_at(u);
            Some(v)
        }
    }
}

/// Build a discrete generator from weighted values, kept in the given order.
pub fn discrete_gen<T: Copy>(values: Vec<(T, u64)>) -> (r: Result<DiscreteGenerator<T>, Error>)
    ensures
        r is Ok <==> weight_sum(values@) <= u64::MAX,
        r matches Ok(g) ==> g.wf() && g.values == values && g.total == weight_sum(values@),
        r matches Err(e) ==> e is InvalidArgument,
{
    let mut total: u64 = 0;
    let mut i: usize = 0;
    proof {
        assert(values@.take(0) =~= Seq::<(T, u64)>::empty());
    }
    while i < values.len()
        invariant
            0 <= i <= values@.len(),
            total == weight_sum(values@.take(i as int)),
        decreases values@.len() - i,
    {
        let w = values[i].1;
        proof {
            lemma_weight_sum_take_step(values@, i as int);
        }
        if total > u64::MAX - w {
            proof {
                lemma_weight_sum_take_mono(values@, i + 1);
            }
            return Err(Error::InvalidArgument(String::from_str("weight overflow")));
        }
        total = total + w;
        i = i + 1;
    }
    proof {
        assert(values@.take(values@.len() as int) =~= values@);
    }
    Ok(DiscreteGenerator { values, total })
}

proof fn lemma_weight_sum_take_mono<T>(s: Seq<(T, u64)>, i: int)
    requires
        0 <= i <= s.len(),
    ensures
        weight_sum(s.take(i)) <= weight_sum(s),
    decreases s.len() - i,
{
    if i < s.len() {
        lemma_weight_sum_take_step(s, i);
        lemma_weight_sum_take_mono(s, i + 1);
    } else {
        assert(s.take(i) =~= s);
    }
}

/// A monotonically increasing counter; each call atomically returns the
/// current value and advances it by one.
pub struct CounterGenerator {
    counter: AtomicU64,
}

impl CounterGenerator {
    pub fn new(val: u64) -> Self {
        Self { counter: AtomicU64::new(val) }
    }

    /// The current high-water mark, read without advancing.
    pub fn last_value(&self) -> u64 {
        self.counter.load(Ordering::SeqCst)
    }
}

impl Generator<u64> for CounterGenerator {
    fn next(&self) -> u64 {
        self.counter.fetch_add(1, Ordering::SeqCst)
    }
}

/// The generalized harmonic number `zeta(n, theta)` in Q32.32: the sum of
/// the reciprocals of `i^theta` for `i` from 1 to `n`, accumulated in
/// ascending order exactly as the construction loop computes it.
pub open spec fn spec_zeta(n: int, theta: u64) -> u64
    decreases n,
{
    if n <= 0 {
        0u64
    } else {
        spec_fp_add(
            spec_zeta(n - 1, theta),
            spec_fp_recip(spec_fp_pow((n * (FP_ONE as int)) as u64, theta)),
        )
    }
}

/// The Zipfian parameter block built over `[min, max]` with the skew
/// exponent `theta_ppm`: every field of the distribution, written out in
/// the fixed-point operations the constructor performs.
pub open spec fn spec_zipfian(min: u64, max: u64, theta_ppm: u64) -> ZipfDistribution {
    let theta = spec_ppm_to_fp(theta_ppm);
    let n = (max - min + 1) as u64;
    let zn = spec_zeta(n as int, theta);
    let z2 = spec_zeta(2, theta);
    let den = spec_fp_sub(FP_ONE, spec_fp_div(z2, zn));
    let n_fp = ((n as int) * (FP_ONE as int)) as u64;
    let eta_mag = if theta < FP_ONE {
        let t = spec_fp_pow(spec_fp_div((2 * FP_ONE) as u64, n_fp), (FP_ONE - theta) as u64);
        let num = spec_fp_sub(FP_ONE, t);
        if den == 0 {
            0u64
        } else {
            spec_fp_div(num, den)
        }
    } else {
        let t = spec_fp_pow(spec_fp_div(n_fp, (2 * FP_ONE) as u64), (theta - FP_ONE) as u64);
        let num = spec_fp_sub(t, FP_ONE);
        if den == 0 {
            0u64
        } else {
            spec_fp_div(num, den)
        }
    };
    let alpha_mag = if theta < FP_ONE {
        spec_fp_div(FP_ONE, (FP_ONE - theta) as u64)
    } else {
        spec_fp_div(FP_ONE, (theta - FP_ONE) as u64)
    };
    ZipfDistribution {
        base: min,
        num_items: n,
        theta_fp: theta,
        zeta_n: zn,
        half_pow_theta: spec_fp_pow(FP_HALF, theta),
        eta_mag,
        eta_neg: theta > FP_ONE,
        alpha_mag,
        alpha_neg: theta > FP_ONE,
    }
}

/// Skewed sampling over `[base, base + num_items - 1]` by the closed-form
/// Zipfian approximation, in Q32.32 fixed point. The parameters `zeta_n`,
/// `eta` and `alpha` are fixed at construction.
pub struct ZipfDistribution {
    pub base: u64,
    pub num_items: u64,
    pub theta_fp: u64,
    pub zeta_n: u64,
    pub half_pow_theta: u64,
    pub eta_mag: u64,
    pub eta_neg: bool,
    pub alpha_mag: u64,
    pub alpha_neg: bool,
}

impl ZipfDistribution {
    pub open spec fn wf(&self) -> bool {
        &&& 2 <= self.num_items <= 0x8000_0000u64
        &&& self.base + self.num_items - 1 <= u64::MAX
    }

    /// The largest value a sample may take.
    pub open spec fn spec_max(&self) -> u64 {
        (self.base + self.num_items - 1) as u64
    }

    /// Build the distribution over `[min, max]` with skew `theta_ppm`
    /// (parts per million, not one million exactly). On success every
    /// parameter equals the closed-form value `spec_zipfian` writes out.
    pub fn new(min: u64, max: u64, theta_ppm: u64) -> (r: Result<Self, Error>)
        ensures
            r is Ok <==> min <= max && max - min >= 1 && max - min < 0x8000_0000u64
                && spec_ppm_to_fp(theta_ppm) != FP_ONE,
            r matches Ok(z) ==> z.wf() && z.base == min && z.num_items == max - min + 1
                && z.theta_fp == spec_ppm_to_fp(theta_ppm) && z == spec_zipfian(
                min,
                max,
                theta_ppm,
            ),
            r matches Err(e) ==> e is InvalidArgument,
    {
        if max < min {
            return Err(Error::InvalidArgument(String::from_str("max < min")));
        }
        let span = max - min;
        if span < 1 {
            return Err(Error::InvalidArgument(String::from_str("max - min < 2")));
        }
        if span >= 0x8000_0000 {
            return Err(Error::InvalidArgument(String::from_str("domain too large")));
        }
        let theta_fp = ppm_to_fp(theta_ppm);
        if theta_fp == FP_ONE {
            return Err(Error::InvalidArgument(String::from_str("theta == 1.0")));
        }
        let num_items = span + 1;

        // zeta(n, theta), recording zeta(2, theta) on the way.
        let mut zeta: u64 = 0;
        let mut zeta2: u64 = 0;
        let mut i: u64 = 1;
        while i <= num_items
            invariant
                1 <= i <= num_items + 1,
                2 <= num_items <= 0x8000_0000u64,
                zeta2 <= zeta,
                i >= 2 ==> zeta >= FP_ONE,
                zeta == spec_zeta(i - 1, theta_fp),
                i >= 3 ==> zeta2 == spec_zeta(2, theta_fp),
            decreases num_items + 1 - i,
        {
            let i_fp = i * FP_ONE;
            let term = fp_recip(fp_pow(i_fp, theta_fp));
            let grown = fp_add(zeta, term);
            proof {
                assert(spec_zeta(i as int, theta_fp) == spec_fp_add(
                    spec_zeta(i - 1, theta_fp),
                    spec_fp_recip(spec_fp_pow(((i as int) * (FP_ONE as int)) as u64, theta_fp)),
                ));
            }
            zeta = grown;
            if i == 2 {
                zeta2 = zeta;
            }
            i = i + 1;
        }

        let n_fp = num_items * FP_ONE;
        let den = fp_sub(FP_ONE, fp_div(zeta2, zeta));

        let (eta_mag, eta_neg, alpha_mag, alpha_neg) = if theta_fp < FP_ONE {
            let e = FP_ONE - theta_fp;
            let ratio = fp_div(2 * FP_ONE, n_fp);
            let t = fp_pow(ratio, e);
            let num = fp_sub(FP_ONE, t);
            let eta_mag = if den == 0 {
                0
            } else {
                fp_div(num, den)
            };
            (eta_mag, false, fp_div(FP_ONE, FP_ONE - theta_fp), false)
        } else {
            let e = theta_fp - FP_ONE;
            let ratio = fp_div(n_fp, 2 * FP_ONE);
            let t = fp_pow(ratio, e);
            let num = fp_sub(t, FP_ONE);
            let eta_mag = if den == 0 {
                0
            } else {
                fp_div(num, den)
            };
            (eta_mag, true, fp_div(FP_ONE, theta_fp - FP_ONE), true)
        };

        let half_pow_theta = fp_pow(FP_HALF, theta_fp);

        let built = Self {
            base: min,
            num_items,
            theta_fp,
            zeta_n: zeta,
            half_pow_theta,
            eta_mag,
            eta_neg,
            alpha_mag,
            alpha_neg,
        };
        proof {
            assert(built == spec_zipfian(min, max, theta_ppm));
        }
        Ok(built)
    }

    /// The rank the third branch of the closed form selects for the draw
    /// `u`: `floor(n * (eta*u - eta + 1)^alpha)` in the fixed-point
    /// operations the sampler performs, clamped into the domain.
    pub open spec fn spec_tail_index(&self, u: u64) -> u64
        recommends
            u < FP_ONE,
    {
        let om = (FP_ONE - u) as u64;
        let scaled = spec_fp_mul(self.eta_mag, om);
        let inner = if self.eta_neg {
            spec_fp_add(FP_ONE, scaled)
        } else {
            spec_fp_sub(FP_ONE, scaled)
        };
        let p = if self.alpha_neg {
            spec_fp_recip(spec_fp_pow(inner, self.alpha_mag))
        } else {
            spec_fp_pow(inner, self.alpha_mag)
        };
        let idx = ((self.num_items as int) * (p as int)) / (FP_ONE as int);
        if idx >= self.num_items {
            (self.num_items - 1) as u64
        } else {
            idx as u64
        }
    }

    /// The sample selected by the uniform draw `u` (a Q32.32 value below
    /// one). Deterministic in `u`; the result always lies in the domain,
    /// clamped there when fixed-point rounding would push it past the end.
    pub fn sample_at(&self, u: u64) -> (k: u64)
        requires
            self.wf(),
            u < FP_ONE,
        ensures
            self.base <= k <= self.spec_max(),
            spec_fp_mul(u, self.zeta_n) < FP_ONE ==> k == self.base,
            FP_ONE <= spec_fp_mul(u, self.zeta_n) < spec_fp_add(FP_ONE, self.half_pow_theta) ==> k
                == self.base + 1,
            spec_fp_add(FP_ONE, self.half_pow_theta) <= spec_fp_mul(u, self.zeta_n) ==> k
                == self.base + self.spec_tail_index(u),
    {
        let uz = fp_mul(u, self.zeta_n);
        if uz < FP_ONE {
            return self.base;
        }
        let threshold = fp_add(FP_ONE, self.half_pow_theta);
        if uz < threshold {
            return self.base + 1;
        }
        let om = FP_ONE - u;
        let scaled = fp_mul(self.eta_mag, om);
        let inner = if self.eta_neg {
            fp_add(FP_ONE, scaled)
        } else {
            fp_sub(FP_ONE, scaled)
        };
        let p = if self.alpha_neg {
            fp_recip(fp_pow(inner, self.alpha_mag))
        } else {
            fp_pow(inner, self.alpha_mag)
        };
        proof {
            assert((self.num_items as int) * (p as int) <= (0x8000_0000int) * (u64::MAX as int))
                by (nonlinear_arith)
                requires
                    self.num_items <= 0x8000_0000u64,
                    p <= u64::MAX,
            ;
        }
        let prod: u128 = (self.num_items as u128) * (p as u128);
        let idx128: u128 = prod / (FP_ONE as u128);
        let idx: u64 = if idx128 >= (self.num_items as u128) {
            self.num_items - 1
        } else {
            idx128 as u64
        };
        self.base + idx
    }

    /// Draw one sample.
    pub fn sample(&self) -> (k: u64)
        requires
            self.wf(),
        ensures
            self.base <= k <= self.spec_max(),
    {
        let u = rand_index(FP_ONE);
        self.sample_at(u)
    }
}

/// Build a Zipfian generator over `[0, num_elements]`.
pub fn zipfian_gen(num_elements: u64, theta_ppm: u64) -> (r: Result<ZipfDistribution, Error>)
    ensures
        r is Ok <==> num_elements >= 1 && num_elements < 0x8000_0000u64 && spec_ppm_to_fp(
            theta_ppm,
        ) != FP_ONE,
        r matches Ok(z) ==> z.wf() && z.base == 0 && z.num_items == num_elements + 1 && z
            == spec_zipfian(0, num_elements, theta_ppm),
        r matches Err(e) ==> e is InvalidArgument,
{
    ZipfDistribution::new(0, num_elements, theta_ppm)
}

/// Zipfian sampling offset from the live value of a shared counter, so that
/// recently inserted keys are the most likely. The Zipfian parameters are
/// fixed from the counter value seen at construction.
pub struct SkewedLatestGenerator {
    pub basis: Arc<CounterGenerator>,
    pub zipfian: ZipfDistribution,
}

impl SkewedLatestGenerator {
    pub open spec fn wf(&self) -> bool {
        self.zipfian.wf() && self.zipfian.base == 0
    }

    /// Build from a shared counter; fails when the counter's current value
    /// gives a degenerate Zipfian domain. On success the generator wraps
    /// the Zipfian closed form with the fixed skew exponent
    /// `ZIPFIAN_CONSTANT_PPM`, over the frontier value seen here.
    pub fn new(basis: Arc<CounterGenerator>) -> (r: Result<Self, Error>)
        ensures
            r matches Ok(g) ==> {
                &&& g.wf()
                &&& g.basis == basis
                &&& g.zipfian.theta_fp == spec_ppm_to_fp(ZIPFIAN_CONSTANT_PPM)
                &&& exists|m: u64|
                    1 <= m < 0x8000_0000u64 && g.zipfian == #[trigger] spec_zipfian(
                        0,
                        m,
                        ZIPFIAN_CONSTANT_PPM,
                    )
            },
            r matches Err(e) ==> e is InvalidArgument,
    {
        let max = basis.last_value();
        match ZipfDistribution::new(0, max, ZIPFIAN_CONSTANT_PPM) {
            Ok(z) => {
                proof {
                    assert(z == spec_zipfian(0, max, ZIPFIAN_CONSTANT_PPM));
                }
                Ok(Self { basis, zipfian: z })
            },
            Err(e) => Err(e),
        }
    }

    /// Draw a value at most the counter's current reading, biased toward it.
    pub fn next_value(&self) -> u64
        requires
            self.wf(),
    {
        let m = self.basis.last_value();
        let s = self.zipfian.sample();
        if s > m {
            0
        } else {
            m - s
        }
    }
}

} // verus!
