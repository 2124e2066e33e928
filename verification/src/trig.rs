//! Exact fixed-point trigonometry on milli-turn angles, and an integer
//! square root. A milli-turn is one thousandth of a full circle, so angles
//! wrap at 1000; sine and cosine are returned in milli (1000 = one).
//!
//! The sine kernel is the classical rational half-wave approximation
//! `16 u / (5 - 4 u')` (with `u = t (500 - t)` over a half turn), which is
//! exact at every quarter turn and stays within one part in fifty of the
//! real sine everywhere else.

use vstd::prelude::*;

verus! {

/// The sine kernel over the first half turn: for `t` in `[0, 500]`,
/// `u = t * (500 - t)` and the value is `16000 u / (1250000 - 4 u)` milli.
pub open spec fn spec_half_sin(t: int) -> int {
    16000 * (t * (500 - t)) / (1250000 - 4 * (t * (500 - t)))
}

/// The sine of `t` milli-turns, in milli, for `t` in `[0, 1000)`: the kernel
/// over the first half turn, its negation over the second.
pub open spec fn spec_sin_mt(t: int) -> int {
    if t < 500 {
        spec_half_sin(t)
    } else {
        -spec_half_sin(t - 500)
    }
}

/// The cosine of `t` milli-turns, in milli, for `t` in `[0, 1000)`: the sine
/// a quarter turn ahead.
pub open spec fn spec_cos_mt(t: int) -> int {
    spec_sin_mt((t + 250) % 1000)
}

/// Over the half wave the kernel product `u = t * (500 - t)` stays within
/// `[0, 62500]`, which keeps the kernel's denominator positive and its value
/// within `[0, 1000]`.
proof fn lemma_half_sin_range(t: int)
    requires
        0 <= t <= 500,
    ensures
        0 <= t * (500 - t) <= 62500,
        0 <= spec_half_sin(t) <= 1000,
{
    let u = t * (500 - t);
    assert(t * (500 - t) == 62500 - (t - 250) * (t - 250)) by (nonlinear_arith);
    assert((t - 250) * (t - 250) >= 0) by (nonlinear_arith);
    assert(t * (500 - t) >= 0) by (nonlinear_arith)
        requires 0 <= t <= 500;
    assert(0 <= u <= 62500);
    assert(1250000 - 4 * u >= 1000000);
    assert(16000 * u >= 0) by (nonlinear_arith)
        requires u >= 0;
    vstd::arithmetic::div_mod::lemma_div_pos_is_pos(16000 * u, 1250000 - 4 * u);
    assert(16000 * u <= 1000 * (1250000 - 4 * u)) by (nonlinear_arith)
        requires 0 <= u <= 62500;
    vstd::arithmetic::div_mod::lemma_div_multiples_vanish(1000, 1250000 - 4 * u);
    vstd::arithmetic::div_mod::lemma_div_is_ordered(
        16000 * u, 1000 * (1250000 - 4 * u), 1250000 - 4 * u,
    );
}

/// The sine value of any normalized milli-turn angle lies in `[-1000, 1000]`.
pub proof fn lemma_sin_mt_range(t: int)
    requires
        0 <= t < 1000,
    ensures
        -1000 <= spec_sin_mt(t) <= 1000,
{
    if t < 500 {
        lemma_half_sin_range(t);
    } else {
        lemma_half_sin_range(t - 500);
    }
}

/// Computes the sine of `t` milli-turns, in milli.
pub fn sin_mt(t: i64) -> (r: i64)
    requires
        0 <= t < 1000,
    ensures
        r == spec_sin_mt(t as int),
        -1000 <= r <= 1000,
{
    let reduced: u64 = if t < 500 { t as u64 } else { (t - 500) as u64 };
    proof {
        lemma_half_sin_range(reduced as int);
    }
    let u: u64 = reduced * (500 - reduced);
    let mag: u64 = 16000 * u / (1250000 - 4 * u);
    if t < 500 {
        mag as i64
    } else {
        -(mag as i64)
    }
}

/// Computes the cosine of `t` milli-turns, in milli.
pub fn cos_mt(t: i64) -> (r: i64)
    requires
        0 <= t < 1000,
    ensures
        r == spec_cos_mt(t as int),
        -1000 <= r <= 1000,
{
    let shifted: i64 = if t + 250 < 1000 { t + 250 } else { t + 250 - 1000 };
    proof {
        if t + 250 < 1000 {
            vstd::arithmetic::div_mod::lemma_small_mod((t + 250) as nat, 1000);
        } else {
            vstd::arithmetic::div_mod::lemma_mod_sub_multiples_vanish((t + 250) as int, 1000);
            vstd::arithmetic::div_mod::lemma_small_mod((t + 250 - 1000) as nat, 1000);
        }
        lemma_sin_mt_range(shifted as int);
    }
    sin_mt(shifted)
}

/// Whether `r` is the integer square root of `n`.
pub open spec fn is_isqrt(n: int, r: int) -> bool {
    0 <= r && r * r <= n < (r + 1) * (r + 1)
}

/// The integer square root of `n`: the unique `r >= 0` with
/// `r * r <= n < (r + 1) * (r + 1)`.
pub open spec fn spec_isqrt(n: int) -> int {
    choose|r: int| is_isqrt(n, r)
}

/// An integer square root exists for every nonnegative integer.
pub proof fn lemma_isqrt_exists(n: int)
    requires
        n >= 0,
    ensures
        is_isqrt(n, spec_isqrt(n)),
        0 <= spec_isqrt(n),
        spec_isqrt(n) * spec_isqrt(n) <= n,
        n < (spec_isqrt(n) + 1) * (spec_isqrt(n) + 1),
    decreases n,
{
    if n == 0 {
        assert(is_isqrt(n, 0));
    } else {
        lemma_isqrt_exists(n - 1);
        let r = spec_isqrt(n - 1);
        if (r + 1) * (r + 1) <= n {
            assert(n < (r + 2) * (r + 2)) by (nonlinear_arith)
                requires n - 1 < (r + 1) * (r + 1), r >= 0;
            assert(is_isqrt(n, r + 1));
        } else {
            assert(is_isqrt(n, r));
        }
        assert(exists|x: int| is_isqrt(n, x));
    }
}

/// The integer square root is unique: any two candidates agree.
pub proof fn lemma_isqrt_unique(n: int, r1: int, r2: int)
    requires
        0 <= r1,
        r1 * r1 <= n < (r1 + 1) * (r1 + 1),
        0 <= r2,
        r2 * r2 <= n < (r2 + 1) * (r2 + 1),
    ensures
        r1 == r2,
{
    if r1 < r2 {
        assert((r1 + 1) * (r1 + 1) <= r2 * r2) by (nonlinear_arith)
            requires 0 <= r1, 0 <= r2, r1 < r2;
        assert(false);
    }
    if r2 < r1 {
        assert((r2 + 1) * (r2 + 1) <= r1 * r1) by (nonlinear_arith)
            requires 0 <= r1, 0 <= r2, r2 < r1;
        assert(false);
    }
}

/// The integer square root: the largest `r` with `r * r <= n`.
pub fn isqrt(n: u64) -> (r: u64)
    requires
        n <= 0x7000_0000_0000_0000,
    ensures
        r * r <= n,
        n < (r + 1) * (r + 1),
        r == spec_isqrt(n as int),
{
    let mut lo: u64 = 0;
    let mut hi: u64 = 0xFFFF_FFFF;
    proof {
        assert((0xFFFF_FFFFu64 + 1) * (0xFFFF_FFFFu64 + 1) > 0x7000_0000_0000_0000)
            by (nonlinear_arith);
    }
    while lo < hi
        invariant
            lo <= hi <= 0xFFFF_FFFF,
            lo * lo <= n,
            n < (hi + 1) * (hi + 1),
        decreases hi - lo,
    {
        let mid: u64 = lo + (hi - lo + 1) / 2;
        proof {
            assert(mid * mid <= 0xFFFF_FFFFu64 * 0xFFFF_FFFFu64) by (nonlinear_arith)
                requires 0 <= mid <= 0xFFFF_FFFFu64;
        }
        if mid * mid <= n {
            lo = mid;
        } else {
            hi = mid - 1;
        }
    }
    proof {
        lemma_isqrt_exists(n as int);
        lemma_isqrt_unique(n as int, lo as int, spec_isqrt(n as int));
    }
    lo
}

} // verus!
