//! Fixed-point arithmetic in the Q32.32 format: a `u64` holds the value
//! `raw / 2^32`. All operations saturate instead of overflowing, so every
//! function here is total, and each has an exact specification mirror so
//! that callers can pin the value computed. The Zipfian sampler is built on
//! these.
use vstd::prelude::*;

verus! {

/// The Q32.32 representation of 1.
pub const FP_ONE: u64 = 0x1_0000_0000;

/// The Q32.32 representation of 1/2.
pub const FP_HALF: u64 = 0x8000_0000;

/// Clamp a mathematical integer into the `u64` range.
pub open spec fn sat64(x: int) -> u64 {
    if x > u64::MAX {
        u64::MAX as u64
    } else if x < 0 {
        0u64
    } else {
        x as u64
    }
}

/// The fixed-point product, rounded toward zero and saturated.
pub open spec fn spec_fp_mul(a: u64, b: u64) -> u64 {
    sat64(((a as int) * (b as int)) / (FP_ONE as int))
}

/// The fixed-point quotient, rounded toward zero and saturated.
pub open spec fn spec_fp_div(a: u64, b: u64) -> u64 {
    sat64(((a as int) * (FP_ONE as int)) / (b as int))
}

/// The saturating sum.
pub open spec fn spec_fp_add(a: u64, b: u64) -> u64 {
    sat64(a + b)
}

/// The difference, floored at zero.
pub open spec fn spec_fp_sub(a: u64, b: u64) -> u64 {
    if a >= b {
        (a - b) as u64
    } else {
        0u64
    }
}

/// The fixed-point reciprocal; the reciprocal of zero saturates upward.
pub open spec fn spec_fp_recip(a: u64) -> u64 {
    if a == 0 {
        u64::MAX as u64
    } else {
        sat64(((FP_ONE as int) * (FP_ONE as int)) / (a as int))
    }
}

/// True when `r` is the integer square root of `n`.
pub open spec fn is_isqrt(n: int, r: int) -> bool {
    r >= 0 && r * r <= n && n < (r + 1) * (r + 1)
}

/// The integer square root: the unique `r` with `r^2 <= n < (r+1)^2`.
pub open spec fn spec_isqrt(n: int) -> int {
    choose|r: int| is_isqrt(n, r)
}

/// Any root that satisfies the square-root inequalities is the one
/// `spec_isqrt` denotes.
pub proof fn lemma_isqrt_is(n: int, r: int)
    requires
        is_isqrt(n, r),
    ensures
        spec_isqrt(n) == r,
{
    assert(exists|x: int| is_isqrt(n, x)) by {
        assert(is_isqrt(n, r));
    }
    let c = spec_isqrt(n);
    assert(is_isqrt(n, c));
    if c < r {
        assert((c + 1) * (c + 1) <= r * r) by (nonlinear_arith)
            requires
                0 <= c + 1,
                c + 1 <= r,
        ;
        assert(false);
    }
    if r < c {
        assert((r + 1) * (r + 1) <= c * c) by (nonlinear_arith)
            requires
                0 <= r + 1,
                r + 1 <= c,
        ;
        assert(false);
    }
}

/// The fixed-point square root: the greatest root of `a * 2^32`.
pub open spec fn spec_fp_sqrt(a: u64) -> u64 {
    spec_isqrt((a as int) * (FP_ONE as int)) as u64
}

/// One step of exponentiation by squaring, mirroring the executable loop.
pub open spec fn spec_pow_int_loop(result: u64, base: u64, exp: nat) -> u64
    decreases exp,
{
    if exp == 0 {
        result
    } else {
        spec_pow_int_loop(
            if exp % 2 == 1 {
                spec_fp_mul(result, base)
            } else {
                result
            },
            spec_fp_mul(base, base),
            exp / 2,
        )
    }
}

/// `x` raised to the whole number `e`, by squaring.
pub open spec fn spec_fp_pow_int(x: u64, e: u64) -> u64 {
    spec_pow_int_loop(FP_ONE, x, e as nat)
}

/// One step of the square-root chain, mirroring the executable loop: `p`
/// walks the fractional bits of `f` from the most significant down.
pub open spec fn spec_pow_frac_loop(acc: u64, cur: u64, f: u64, p: u64) -> u64
    decreases p,
{
    if p == 0 {
        acc
    } else {
        spec_pow_frac_loop(
            if (f / p) % 2 == 1 {
                spec_fp_mul(acc, spec_fp_sqrt(cur))
            } else {
                acc
            },
            spec_fp_sqrt(cur),
            f,
            p / 2,
        )
    }
}

/// `x` raised to the fractional exponent `f / 2^32`.
pub open spec fn spec_fp_pow_frac(x: u64, f: u64) -> u64 {
    spec_pow_frac_loop(FP_ONE, x, f, FP_HALF)
}

/// `x` raised to the nonnegative Q32.32 exponent `y`: the whole and the
/// fractional power, multiplied.
pub open spec fn spec_fp_pow(x: u64, y: u64) -> u64 {
    spec_fp_mul(spec_fp_pow_int(x, (y / FP_ONE) as u64), spec_fp_pow_frac(x, (y % FP_ONE) as u64))
}

/// The conversion from parts-per-million to Q32.32, rounded toward zero.
pub open spec fn spec_ppm_to_fp(p: u64) -> u64 {
    sat64(((p as int) * (FP_ONE as int)) / 1000000)
}

/// Fixed-point product, rounded toward zero and saturated.
pub fn fp_mul(a: u64, b: u64) -> (r: u64)
    ensures
        r == spec_fp_mul(a, b),
{
    proof {
        assert((a as int) * (b as int) <= (u64::MAX as int) * (u64::MAX as int))
            by (nonlinear_arith)
            requires
                a <= u64::MAX,
                b <= u64::MAX,
        ;
    }
    let p: u128 = (a as u128) * (b as u128);
    let q: u128 = p / (FP_ONE as u128);
    if q > (u64::MAX as u128) {
        u64::MAX
    } else {
        q as u64
    }
}

/// Fixed-point quotient, rounded toward zero and saturated.
pub fn fp_div(a: u64, b: u64) -> (r: u64)
    requires
        b > 0,
    ensures
        r == spec_fp_div(a, b),
{
    proof {
        assert((a as int) * (FP_ONE as int) <= (u64::MAX as int) * (FP_ONE as int))
            by (nonlinear_arith)
            requires
                a <= u64::MAX,
        ;
    }
    let p: u128 = (a as u128) * (FP_ONE as u128);
    let q: u128 = p / (b as u128);
    if q > (u64::MAX as u128) {
        u64::MAX
    } else {
        q as u64
    }
}

/// Saturating addition.
pub fn fp_add(a: u64, b: u64) -> (r: u64)
    ensures
        r == spec_fp_add(a, b),
{
    if a <= u64::MAX - b {
        a + b
    } else {
        u64::MAX
    }
}

/// Subtraction with a floor of zero.
pub fn fp_sub(a: u64, b: u64) -> (r: u64)
    ensures
        r == spec_fp_sub(a, b),
{
    if a >= b {
        a - b
    } else {
        0
    }
}

/// Integer square root of a value below 2^96.
pub fn isqrt96(n: u128) -> (r: u64)
    requires
        n < 0x1000000000000000000000000u128,
    ensures
        is_isqrt(n as int, r as int),
{
    let mut lo: u64 = 0;
    let mut hi: u64 = 0x1_0000_0000_0000;
    while hi - lo > 1
        invariant
            lo < hi <= 0x1_0000_0000_0000u64,
            (lo as int) * (lo as int) <= n as int,
            (n as int) < (hi as int) * (hi as int),
        decreases hi - lo,
    {
        let mid: u64 = lo + (hi - lo) / 2;
        proof {
            assert((mid as int) * (mid as int) <= 0x1000000000000000000000000int)
                by (nonlinear_arith)
                requires
                    mid <= 0x1_0000_0000_0000u64,
            ;
        }
        let sq: u128 = (mid as u128) * (mid as u128);
        if sq <= n {
            lo = mid;
        } else {
            hi = mid;
        }
    }
    lo
}

/// Fixed-point square root: the greatest `r` with `r^2 <= a * 2^32`.
pub fn fp_sqrt(a: u64) -> (r: u64)
    ensures
        r == spec_fp_sqrt(a),
        (r as int) * (r as int) <= (a as int) * (FP_ONE as int),
        (a as int) * (FP_ONE as int) < ((r as int) + 1) * ((r as int) + 1),
        a >= FP_ONE ==> r >= FP_ONE,
        a <= FP_ONE ==> r <= FP_ONE,
{
    proof {
        assert((a as int) * (FP_ONE as int) < 0x1000000000000000000000000int)
            by (nonlinear_arith)
            requires
                a <= u64::MAX,
        ;
    }
    let n: u128 = (a as u128) * (FP_ONE as u128);
    let r = isqrt96(n);
    proof {
        lemma_isqrt_is(n as int, r as int);
        if a >= FP_ONE {
            assert((FP_ONE as int) * (FP_ONE as int) <= (a as int) * (FP_ONE as int))
                by (nonlinear_arith)
                requires
                    a >= FP_ONE,
            ;
            assert(r >= FP_ONE) by (nonlinear_arith)
                requires
                    (FP_ONE as int) * (FP_ONE as int) < ((r as int) + 1) * ((r as int) + 1),
            ;
        }
        if a <= FP_ONE {
            assert((a as int) * (FP_ONE as int) <= (FP_ONE as int) * (FP_ONE as int))
                by (nonlinear_arith)
                requires
                    a <= FP_ONE,
            ;
            assert(r <= FP_ONE) by (nonlinear_arith)
                requires
                    (r as int) * (r as int) <= (FP_ONE as int) * (FP_ONE as int),
            ;
        }
    }
    r
}

proof fn lemma_fp_mul_ge_one(a: u64, b: u64)
    requires
        a >= FP_ONE,
        b >= FP_ONE,
    ensures
        spec_fp_mul(a, b) >= FP_ONE,
{
    assert((a as int) * (b as int) >= (FP_ONE as int) * (FP_ONE as int)) by (nonlinear_arith)
        requires
            a >= FP_ONE,
            b >= FP_ONE,
    ;
    assert(((a as int) * (b as int)) / (FP_ONE as int) >= FP_ONE) by (nonlinear_arith)
        requires
            (a as int) * (b as int) >= (FP_ONE as int) * (FP_ONE as int),
    ;
}

proof fn lemma_fp_mul_le_one(a: u64, b: u64)
    requires
        a <= FP_ONE,
        b <= FP_ONE,
    ensures
        spec_fp_mul(a, b) <= FP_ONE,
{
    assert((a as int) * (b as int) <= (FP_ONE as int) * (FP_ONE as int)) by (nonlinear_arith)
        requires
            a <= FP_ONE,
            b <= FP_ONE,
    ;
    assert(((a as int) * (b as int)) / (FP_ONE as int) <= FP_ONE) by (nonlinear_arith)
        requires
            (a as int) * (b as int) <= (FP_ONE as int) * (FP_ONE as int),
            a >= 0,
            b >= 0,
    ;
}

/// `x` raised to a whole number, by squaring.
pub fn fp_pow_int(x: u64, e: u64) -> (r: u64)
    ensures
        r == spec_fp_pow_int(x, e),
        x >= FP_ONE ==> r >= FP_ONE,
        x <= FP_ONE ==> r <= FP_ONE,
        e == 0 ==> r == FP_ONE,
{
    let mut result: u64 = FP_ONE;
    let mut base: u64 = x;
    let mut exp: u64 = e;
    while exp > 0
        invariant
            x >= FP_ONE ==> base >= FP_ONE && result >= FP_ONE,
            x <= FP_ONE ==> base <= FP_ONE && result <= FP_ONE,
            e == 0 ==> exp == 0 && result == FP_ONE,
            spec_pow_int_loop(result, base, exp as nat) == spec_fp_pow_int(x, e),
        decreases exp,
    {
        if exp % 2 == 1 {
            proof {
                if x >= FP_ONE {
                    lemma_fp_mul_ge_one(result, base);
                }
                if x <= FP_ONE {
                    lemma_fp_mul_le_one(result, base);
                }
            }
            result = fp_mul(result, base);
        }
        proof {
            if x >= FP_ONE {
                lemma_fp_mul_ge_one(base, base);
            }
            if x <= FP_ONE {
                lemma_fp_mul_le_one(base, base);
            }
        }
        base = fp_mul(base, base);
        exp = exp / 2;
    }
    result
}

/// `x` raised to the fractional exponent `f / 2^32`, by the square-root
/// chain: one square root per fractional bit, multiplied in where the bit
/// is set.
pub fn fp_pow_frac(x: u64, f: u64) -> (r: u64)
    requires
        f < FP_ONE,
    ensures
        r == spec_fp_pow_frac(x, f),
        x >= FP_ONE ==> r >= FP_ONE,
        x <= FP_ONE ==> r <= FP_ONE,
{
    let mut acc: u64 = FP_ONE;
    let mut cur: u64 = x;
    let mut p: u64 = FP_HALF;
    while p > 0
        invariant
            x >= FP_ONE ==> cur >= FP_ONE && acc >= FP_ONE,
            x <= FP_ONE ==> cur <= FP_ONE && acc <= FP_ONE,
            spec_pow_frac_loop(acc, cur, f, p) == spec_fp_pow_frac(x, f),
        decreases p,
    {
        cur = fp_sqrt(cur);
        if (f / p) % 2 == 1 {
            proof {
                if x >= FP_ONE {
                    lemma_fp_mul_ge_one(acc, cur);
                }
                if x <= FP_ONE {
                    lemma_fp_mul_le_one(acc, cur);
                }
            }
            acc = fp_mul(acc, cur);
        }
        p = p / 2;
    }
    acc
}

/// `x` raised to the nonnegative Q32.32 exponent `y`.
pub fn fp_pow(x: u64, y: u64) -> (r: u64)
    ensures
        r == spec_fp_pow(x, y),
        x >= FP_ONE ==> r >= FP_ONE,
        x <= FP_ONE ==> r <= FP_ONE,
{
    let yi: u64 = y / FP_ONE;
    let yf: u64 = y % FP_ONE;
    let a = fp_pow_int(x, yi);
    let b = fp_pow_frac(x, yf);
    proof {
        if x >= FP_ONE {
            lemma_fp_mul_ge_one(a, b);
        }
        if x <= FP_ONE {
            lemma_fp_mul_le_one(a, b);
        }
    }
    fp_mul(a, b)
}

/// Fixed-point reciprocal; the reciprocal of zero saturates upward.
pub fn fp_recip(a: u64) -> (r: u64)
    ensures
        r == spec_fp_recip(a),
        a >= FP_ONE ==> r <= FP_ONE,
        0 < a <= FP_ONE ==> r >= FP_ONE,
{
    if a == 0 {
        u64::MAX
    } else {
        let r = fp_div(FP_ONE, a);
        proof {
            if a >= FP_ONE {
                assert(((FP_ONE as int) * (FP_ONE as int)) / (a as int) <= FP_ONE)
                    by (nonlinear_arith)
                    requires
                        a >= FP_ONE,
                ;
            }
            if a <= FP_ONE && a > 0 {
                assert(((FP_ONE as int) * (FP_ONE as int)) / (a as int) >= FP_ONE)
                    by (nonlinear_arith)
                    requires
                        0 < a <= FP_ONE,
                ;
            }
        }
        r
    }
}

/// Exact conversion from parts-per-million to Q32.32 (rounded toward zero).
pub fn ppm_to_fp(p: u64) -> (r: u64)
    ensures
        r == spec_ppm_to_fp(p),
{
    proof {
        assert((p as int) * (FP_ONE as int) <= (u64::MAX as int) * (FP_ONE as int))
            by (nonlinear_arith)
            requires
                p <= u64::MAX,
        ;
    }
    let q: u128 = ((p as u128) * (FP_ONE as u128)) / 1000000;
    if q > (u64::MAX as u128) {
        u64::MAX
    } else {
        q as u64
    }
}

} // verus!
