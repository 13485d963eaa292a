//! Fixed-point scalar arithmetic.
//!
//! A scalar is an `i64` counting 1/65536 units. All operations are total:
//! results are truncated toward zero and saturated into `[MIN, MAX]`, and
//! division by zero yields the saturation bound with the dividend's sign, so
//! the bound doubles as a signed infinity (an unbounded ray length, the entry
//! distance of a slab parallel to the ray). Each operation is specified
//! exactly over the mathematical integers.

use vstd::prelude::*;

verus! {

/// A fixed-point scalar: a count of 1/65536 units.
pub type Fx = i64;

/// The number of units in one whole.
pub const ONE: i64 = 65536;

/// Half of a whole.
pub const HALF: i64 = 32768;

/// Minus one whole.
pub const NEG_ONE: i64 = -65536;

/// Two wholes.
pub const TWO: i64 = 131072;

/// Largest representable scalar; doubles as the unbounded ("infinite") value.
pub const MAX: i64 = i64::MAX;

/// Smallest representable scalar, kept symmetric to `MAX` so that negation
/// is always defined.
pub const MIN: i64 = -i64::MAX;

/// Saturate an unbounded integer into the representable range.
pub open spec fn clip(v: int) -> int {
    if v > MAX {
        MAX as int
    } else if v < MIN {
        MIN as int
    } else {
        v
    }
}

/// Division truncated toward zero, for a positive divisor.
pub open spec fn tdiv(n: int, d: int) -> int
    recommends
        d > 0,
{
    if n >= 0 {
        n / d
    } else {
        -((-n) / d)
    }
}

/// What `add` returns: the saturated sum.
pub open spec fn spec_add(a: int, b: int) -> int {
    clip(a + b)
}

/// What `sub` returns: the saturated difference.
pub open spec fn spec_sub(a: int, b: int) -> int {
    clip(a - b)
}

/// What `neg` returns.
pub open spec fn spec_neg(a: int) -> int {
    clip(-a)
}

/// What `mul` returns: the fixed-point product `a * b / ONE`, truncated
/// toward zero and saturated.
pub open spec fn spec_mul(a: int, b: int) -> int {
    clip(tdiv(a * b, ONE as int))
}

/// What `div` returns: the fixed-point quotient `a * ONE / b`, truncated
/// toward zero and saturated; division by zero saturates with `a`'s sign.
pub open spec fn spec_div(a: int, b: int) -> int {
    if b == 0 {
        if a > 0 {
            MAX as int
        } else if a < 0 {
            MIN as int
        } else {
            0
        }
    } else if b > 0 {
        clip(tdiv(a * (ONE as int), b))
    } else {
        clip(tdiv(-(a * (ONE as int)), -b))
    }
}

/// Saturate a wide intermediate back into the scalar range.
fn clamp_wide(v: i128) -> (r: i64)
    ensures
        r == clip(v as int),
{
    if v > i64::MAX as i128 {
        i64::MAX
    } else if v < -(i64::MAX as i128) {
        -i64::MAX
    } else {
        v as i64
    }
}

/// Truncating division of a wide value by a positive divisor.
fn tdiv_wide(n: i128, d: i128) -> (q: i128)
    requires
        d > 0,
        n > i128::MIN,
    ensures
        q == tdiv(n as int, d as int),
{
    if n >= 0 {
        n / d
    } else {
        -((-n) / d)
    }
}

/// Saturating addition.
pub fn add(a: Fx, b: Fx) -> (r: Fx)
    ensures
        r == spec_add(a as int, b as int),
{
    clamp_wide(a as i128 + b as i128)
}

/// Saturating subtraction.
pub fn sub(a: Fx, b: Fx) -> (r: Fx)
    ensures
        r == spec_sub(a as int, b as int),
{
    clamp_wide(a as i128 - b as i128)
}

/// Saturating negation.
pub fn neg(a: Fx) -> (r: Fx)
    ensures
        r == spec_neg(a as int),
{
    clamp_wide(-(a as i128))
}

/// Saturating fixed-point multiplication.
pub fn mul(a: Fx, b: Fx) -> (r: Fx)
    ensures
        r == spec_mul(a as int, b as int),
{
    proof {
        assert(i128::MIN < (a as int) * (b as int) <= i128::MAX) by (nonlinear_arith)
            requires
                i64::MIN <= a <= i64::MAX,
                i64::MIN <= b <= i64::MAX;
    }
    let p: i128 = (a as i128) * (b as i128);
    clamp_wide(tdiv_wide(p, ONE as i128))
}

/// Saturating fixed-point division, total in the divisor.
pub fn div(a: Fx, b: Fx) -> (r: Fx)
    ensures
        r == spec_div(a as int, b as int),
{
    if b == 0 {
        if a > 0 {
            MAX
        } else if a < 0 {
            MIN
        } else {
            0
        }
    } else {
        let n: i128 = (a as i128) * 65536i128;
        if b < 0 {
            clamp_wide(tdiv_wide(-n, -(b as i128)))
        } else {
            clamp_wide(tdiv_wide(n, b as i128))
        }
    }
}

/// Conversion from a whole number of units.
pub fn of_int(n: i64) -> (r: Fx)
    ensures
        r == clip(n * (ONE as int)),
{
    clamp_wide((n as i128) * 65536i128)
}

/// Clamp a scalar into `[lo, hi]`.
pub fn clamp(x: Fx, lo: Fx, hi: Fx) -> (r: Fx)
    requires
        lo <= hi,
    ensures
        r == spec_clamp(x as int, lo as int, hi as int),
{
    if x < lo {
        lo
    } else if x > hi {
        hi
    } else {
        x
    }
}

/// What `abs` returns: the saturated magnitude.
pub open spec fn spec_abs(a: int) -> int {
    if a < 0 {
        clip(-a)
    } else {
        a
    }
}

/// Saturating absolute value.
pub fn abs(a: Fx) -> (r: Fx)
    ensures
        r == spec_abs(a as int),
{
    if a < 0 {
        neg(a)
    } else {
        a
    }
}

/// What `clamp` returns.
pub open spec fn spec_clamp(x: int, lo: int, hi: int) -> int {
    if x < lo {
        lo
    } else if x > hi {
        hi
    } else {
        x
    }
}

/// Holds when `r` is the integer square root of `n`.
pub open spec fn is_isqrt(n: int, r: int) -> bool {
    &&& 0 <= r
    &&& r * r <= n
    &&& n < (r + 1) * (r + 1)
}

/// The integer square root: the unique `r` with `r * r <= n < (r+1) * (r+1)`.
pub open spec fn spec_isqrt(n: int) -> int {
    choose|r: int| is_isqrt(n, r)
}

/// The integer square root is unique, so any witness pins `spec_isqrt` down.
pub proof fn lemma_isqrt_is(n: int, r: int)
    requires
        is_isqrt(n, r),
    ensures
        spec_isqrt(n) == r,
{
    assert(exists|q: int| is_isqrt(n, q));
    let q = spec_isqrt(n);
    assert(is_isqrt(n, q));
    assert(q == r) by (nonlinear_arith)
        requires
            0 <= q,
            q * q <= n,
            n < (q + 1) * (q + 1),
            0 <= r,
            r * r <= n,
            n < (r + 1) * (r + 1);
}

/// Integer square root of a wide nonnegative value, by bisection.
fn isqrt_wide(n: u128) -> (r: u128)
    ensures
        is_isqrt(n as int, r as int),
        r <= 0xFFFF_FFFF_FFFF_FFFF,
{
    let mut lo: u128 = 0;
    let mut hi: u128 = 0x1_0000_0000_0000_0000;
    proof {
        assert((n as int) < 0x1_0000_0000_0000_0000 * 0x1_0000_0000_0000_0000) by (nonlinear_arith)
            requires
                n <= u128::MAX;
    }
    while lo + 1 < hi
        invariant
            lo < hi,
            hi <= 0x1_0000_0000_0000_0000,
            (lo as int) * (lo as int) <= n as int,
            (n as int) < (hi as int) * (hi as int),
        decreases hi - lo,
    {
        let mid: u128 = lo + (hi - lo) / 2;
        proof {
            assert((mid as int) * (mid as int) <= u128::MAX) by (nonlinear_arith)
                requires
                    mid < 0x1_0000_0000_0000_0000;
        }
        let sq: u128 = mid * mid;
        if sq <= n {
            lo = mid;
        } else {
            hi = mid;
        }
    }
    lo
}

/// What `sqrt` returns: the integer square root of `x * ONE` (so the result
/// is again in fixed-point units); nonpositive inputs map to zero.
pub open spec fn spec_sqrt(x: int) -> int {
    if x <= 0 {
        0
    } else {
        spec_isqrt(x * (ONE as int))
    }
}

/// Fixed-point square root (its result always fits, so it never
/// saturates).
pub fn sqrt(x: Fx) -> (r: Fx)
    ensures
        r == spec_sqrt(x as int),
        r >= 0,
        x > 0 ==> is_isqrt(x * (ONE as int), r as int),
{
    if x <= 0 {
        0
    } else {
        let n: u128 = (x as u128) * 65536u128;
        let s: u128 = isqrt_wide(n);
        proof {
            assert(s < 0x100_0000_0000_0000) by (nonlinear_arith)
                requires
                    (s as int) * (s as int) <= n as int,
                    n as int <= 0x7FFF_FFFF_FFFF_FFFF * 0x1_0000;
            lemma_isqrt_is(n as int, s as int);
        }
        s as i64
    }
}

/// What `powi` returns: the `e`-fold fixed-point product of `b` with one.
pub open spec fn spec_powi(b: int, e: nat) -> int
    decreases e,
{
    if e == 0 {
        ONE as int
    } else {
        spec_mul(b, spec_powi(b, (e - 1) as nat))
    }
}

/// Fixed-point power with a natural exponent.
pub fn powi(b: Fx, e: u32) -> (r: Fx)
    ensures
        r == spec_powi(b as int, e as nat),
{
    let mut r: i64 = ONE;
    let mut i: u32 = 0;
    while i < e
        invariant
            i <= e,
            r == spec_powi(b as int, i as nat),
        decreases e - i,
    {
        r = crate::fx::mul(b, r);
        i = i + 1;
    }
    r
}

/// A quarter turn (pi/2) in 1/65536 units.
pub const HALF_PI: i64 = 102944;

/// An eighth turn (pi/4) in 1/65536 units.
pub const QUARTER_PI: i64 = 51472;

/// The tuning constant 0.273 of the quadratic arctangent approximation.
pub const ATAN_TUNE: i64 = 17891;

/// What `atan` returns on `[0, 1]`: the quadratic approximation
/// `x * pi/4 + 0.273 * x * (1 - x)`.
pub open spec fn spec_atan_unit(x: int) -> int {
    spec_add(
        spec_mul(x, QUARTER_PI as int),
        spec_mul(spec_mul(ATAN_TUNE as int, x), spec_sub(ONE as int, x)),
    )
}

/// What `atan` returns on nonnegative inputs: beyond one, the complement
/// identity `pi/2 - atan(1/x)` folds the argument into the unit range.
pub open spec fn spec_atan_nonneg(x: int) -> int {
    if x > ONE {
        spec_sub(HALF_PI as int, spec_atan_unit(spec_div(ONE as int, x)))
    } else {
        spec_atan_unit(x)
    }
}

/// What `atan` returns: odd symmetry around zero.
pub open spec fn spec_atan(x: int) -> int {
    if x < 0 {
        spec_neg(spec_atan_nonneg(clip(-x)))
    } else {
        spec_atan_nonneg(x)
    }
}

/// The quadratic arctangent approximation on the unit range.
fn atan_unit(x: Fx) -> (r: Fx)
    ensures
        r == spec_atan_unit(x as int),
{
    crate::fx::add(
        crate::fx::mul(x, QUARTER_PI),
        crate::fx::mul(crate::fx::mul(ATAN_TUNE, x), crate::fx::sub(ONE, x)),
    )
}

/// The arctangent of a nonnegative scalar.
fn atan_nonneg(x: Fx) -> (r: Fx)
    requires
        x >= 0,
    ensures
        r == spec_atan_nonneg(x as int),
{
    if x > ONE {
        crate::fx::sub(HALF_PI, atan_unit(crate::fx::div(ONE, x)))
    } else {
        atan_unit(x)
    }
}

/// The arctangent, by a quadratic approximation and the complement and
/// odd symmetries.
pub fn atan(x: Fx) -> (r: Fx)
    ensures
        r == spec_atan(x as int),
{
    if x < 0 {
        crate::fx::neg(atan_nonneg(crate::fx::neg(x)))
    } else {
        atan_nonneg(x)
    }
}

/// Fixed-point division by one is exact.
pub proof fn lemma_div_one(c: int)
    requires
        MIN <= c <= MAX,
    ensures
        spec_div(c, ONE as int) == c,
{
    if c >= 0 {
        vstd::arithmetic::div_mod::lemma_div_multiples_vanish(c, ONE as int);
        assert(c * (ONE as int) == (ONE as int) * c);
    } else {
        vstd::arithmetic::div_mod::lemma_div_multiples_vanish(-c, ONE as int);
        assert(-(c * (ONE as int)) == (ONE as int) * (-c));
    }
}

/// Fixed-point division of a whole multiple `m * c` by the whole scalar
/// `m` is exact.
pub proof fn lemma_div_multiple(c: int, m: int)
    requires
        0 < m,
        MIN <= c <= MAX,
        MIN <= m * c <= MAX,
        m * (ONE as int) <= MAX,
    ensures
        spec_div(m * c, m * (ONE as int)) == c,
{
    let s = ONE as int;
    assert(m * s > 0);
    if c >= 0 {
        assert(m * c * s == (m * s) * c) by (nonlinear_arith);
        assert(m * c * s >= 0) by (nonlinear_arith)
            requires
                m > 0,
                c >= 0,
                s > 0;
        vstd::arithmetic::div_mod::lemma_div_multiples_vanish(c, m * s);
        assert(((m * s) * c) / (m * s) == c);
    } else {
        assert(m * c * s < 0) by (nonlinear_arith)
            requires
                m > 0,
                c < 0,
                s > 0;
        assert(-(m * c * s) == (m * s) * (-c)) by (nonlinear_arith);
        vstd::arithmetic::div_mod::lemma_div_multiples_vanish(-c, m * s);
        assert(((m * s) * (-c)) / (m * s) == -c);
    }
}

/// Division never flips signs: the quotient's sign follows the usual rule
/// of signs, and saturation keeps it.
pub proof fn lemma_div_sign(a: int, b: int)
    ensures
        a >= 0 && b > 0 ==> spec_div(a, b) >= 0,
        a <= 0 && b > 0 ==> spec_div(a, b) <= 0,
        a >= 0 && b < 0 ==> spec_div(a, b) <= 0,
        a <= 0 && b < 0 ==> spec_div(a, b) >= 0,
        a >= 0 && b == 0 ==> spec_div(a, b) >= 0,
        a <= 0 && b == 0 ==> spec_div(a, b) <= 0,
{
    let s = ONE as int;
    if b != 0 {
        let d = if b > 0 {
            b
        } else {
            -b
        };
        vstd::arithmetic::div_mod::lemma_div_of0(d);
        if a >= 0 {
            vstd::arithmetic::div_mod::lemma_div_pos_is_pos(a * s, d);
        } else {
            vstd::arithmetic::div_mod::lemma_div_pos_is_pos(-(a * s), d);
        }
        assert(a >= 0 ==> tdiv(a * s, d) >= 0);
        assert(a <= 0 ==> tdiv(a * s, d) <= 0);
        assert(a >= 0 ==> tdiv(-(a * s), d) <= 0);
        assert(a <= 0 ==> tdiv(-(a * s), d) >= 0);
    }
}

/// Every nonnegative integer has an integer square root.
pub proof fn lemma_isqrt_exists(n: int)
    requires
        n >= 0,
    ensures
        is_isqrt(n, spec_isqrt(n)),
    decreases n,
{
    if n == 0 {
        assert(is_isqrt(0, 0));
    } else {
        lemma_isqrt_exists(n - 1);
        let r = spec_isqrt(n - 1);
        if (r + 1) * (r + 1) <= n {
            assert(is_isqrt(n, r + 1)) by (nonlinear_arith)
                requires
                    0 <= r,
                    r * r <= n - 1,
                    n - 1 < (r + 1) * (r + 1),
                    (r + 1) * (r + 1) <= n;
        } else {
            assert(is_isqrt(n, r));
        }
    }
    let w = choose|q: int| is_isqrt(n, q);
    assert(is_isqrt(n, w));
}

/// The square root is never negative.
pub proof fn lemma_sqrt_nonneg(x: int)
    ensures
        spec_sqrt(x) >= 0,
{
    if x > 0 {
        lemma_isqrt_exists(x * (ONE as int));
    }
}

/// A single unit collapses under repeated fixed-point multiplication: its
/// powers are one unit at exponent one and vanish beyond.
pub proof fn lemma_powi_unit(e: nat)
    ensures
        e == 1 ==> spec_powi(1, e) == 1,
        e >= 2 ==> spec_powi(1, e) <= 0,
    decreases e,
{
    if e == 1 {
        assert(spec_powi(1, 1) == spec_mul(1, spec_powi(1, 0)));
    } else if e >= 2 {
        lemma_powi_unit((e - 1) as nat);
        assert(spec_powi(1, e) == spec_mul(1, spec_powi(1, (e - 1) as nat)));
    }
}

/// One is a fixed point of every power.
pub proof fn lemma_powi_one(e: nat)
    ensures
        spec_powi(ONE as int, e) == ONE as int,
    decreases e,
{
    if e > 0 {
        lemma_powi_one((e - 1) as nat);
    }
}

/// The `n`-th root by bisection: a scalar `r` in `[0, ONE]` whose `n`-fold
/// product stays within `x` while that of `r + 1` exceeds it.
pub fn root_n(x: Fx, n: u32) -> (r: Fx)
    requires
        0 <= x <= ONE,
        n >= 1,
    ensures
        0 <= r <= ONE,
        spec_powi(r as int, n as nat) <= x,
        r < ONE ==> x < spec_powi(r + 1, n as nat),
{
    if x == ONE {
        proof {
            lemma_powi_one(n as nat);
        }
        return ONE;
    }
    let mut lo: i64 = 0;
    let mut hi: i64 = ONE;
    proof {
        lemma_powi_one(n as nat);
        assert(spec_powi(0, n as nat) == spec_mul(0, spec_powi(0, (n - 1) as nat)));
    }
    while lo + 1 < hi
        invariant
            0 <= lo < hi <= ONE,
            spec_powi(lo as int, n as nat) <= x,
            x < spec_powi(hi as int, n as nat),
            n >= 1,
        decreases hi - lo,
    {
        let mid: i64 = lo + (hi - lo) / 2;
        if crate::fx::powi(mid, n) <= x {
            lo = mid;
        } else {
            hi = mid;
        }
    }
    lo
}

} // verus!
