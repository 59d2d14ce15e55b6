//! Fixed-point arithmetic helpers for the routing factors: a saturating
//! fixed-point power and an integer square root.

use vstd::prelude::*;
use crate::{FACTOR_MAX, SCALE};

verus! {

/// Clamp a factor value to the representable range `[0, FACTOR_MAX]`.
pub open spec fn clamp_factor(x: int) -> int {
    if x > FACTOR_MAX as int {
        FACTOR_MAX as int
    } else {
        x
    }
}

/// `base^exp` in fixed point (`SCALE` is 1.0), saturating at `FACTOR_MAX`
/// after every multiplication.
pub open spec fn spec_pow_scaled(base: int, exp: nat) -> int
    decreases exp,
{
    if exp == 0 {
        SCALE as int
    } else {
        clamp_factor(spec_pow_scaled(base, (exp - 1) as nat) * base / (SCALE as int))
    }
}

/// The saturating fixed-point power stays within `[0, FACTOR_MAX]`.
pub proof fn lemma_pow_scaled_bounds(base: int, exp: nat)
    requires
        0 <= base <= FACTOR_MAX,
    ensures
        0 <= spec_pow_scaled(base, exp) <= FACTOR_MAX,
    decreases exp,
{
    if exp > 0 {
        lemma_pow_scaled_bounds(base, (exp - 1) as nat);
        let prev = spec_pow_scaled(base, (exp - 1) as nat);
        assert(prev * base >= 0) by (nonlinear_arith)
            requires prev >= 0 && base >= 0;
        assert(prev * base / (SCALE as int) >= 0);
    }
}

/// Compute `base^exp` in fixed point, saturating at `FACTOR_MAX`.
pub fn pow_scaled(base: u64, exp: u32) -> (r: u64)
    requires
        base <= FACTOR_MAX,
    ensures
        r == spec_pow_scaled(base as int, exp as nat),
        r <= FACTOR_MAX,
{
    let mut acc: u64 = SCALE;
    let mut i: u32 = 0;
    proof {
        lemma_pow_scaled_bounds(base as int, exp as nat);
    }
    while i < exp
        invariant
            i <= exp,
            base <= FACTOR_MAX,
            acc == spec_pow_scaled(base as int, i as nat),
            acc <= FACTOR_MAX,
        decreases exp - i,
    {
        assert(acc as int * base as int <= FACTOR_MAX as int * FACTOR_MAX as int)
            by (nonlinear_arith)
            requires
                acc as int <= FACTOR_MAX as int,
                base as int <= FACTOR_MAX as int,
                acc as int >= 0,
                base as int >= 0,
        ;
        let wide: u128 = (acc as u128) * (base as u128) / (SCALE as u128);
        let stepped: u64 = if wide > FACTOR_MAX as u128 {
            FACTOR_MAX
        } else {
            wide as u64
        };
        acc = stepped;
        i = i + 1;
        assert(acc == spec_pow_scaled(base as int, i as nat));
    }
    acc
}

/// Whether `r` is the integer square root of `n`.
pub open spec fn is_isqrt(n: int, r: int) -> bool {
    r >= 0 && r * r <= n < (r + 1) * (r + 1)
}

/// The integer square root of `n`: the unique non-negative `r` with
/// `r * r <= n < (r + 1) * (r + 1)`.
pub open spec fn spec_isqrt(n: int) -> int {
    choose|r: int| is_isqrt(n, r)
}

/// A value with the integer-square-root property is `spec_isqrt(n)`: the
/// property has exactly one non-negative solution.
pub proof fn lemma_isqrt_is(n: int, r: int)
    requires
        is_isqrt(n, r),
    ensures
        spec_isqrt(n) == r,
{
    assert(exists|q: int| is_isqrt(n, q)) by {
        assert(is_isqrt(n, r));
    }
    let q = spec_isqrt(n);
    assert(is_isqrt(n, q));
    if q < r {
        assert((q + 1) * (q + 1) <= r * r) by (nonlinear_arith)
            requires 0 <= q < r,
        ;
    } else if r < q {
        assert((r + 1) * (r + 1) <= q * q) by (nonlinear_arith)
            requires 0 <= r < q,
        ;
    }
}

/// Integer square root: the greatest `r` with `r * r <= n`.
pub fn isqrt(n: u64) -> (r: u64)
    ensures
        r * r <= n < (r + 1) * (r + 1),
        r == spec_isqrt(n as int),
{
    let mut lo: u64 = 0;
    let mut hi: u64 = 4_294_967_296;
    assert(n < hi * hi);
    while hi - lo > 1
        invariant
            lo < hi,
            hi <= 4_294_967_296,
            lo * lo <= n,
            n < hi * hi,
        decreases hi - lo,
    {
        let mid: u64 = lo + (hi - lo) / 2;
        assert(mid as int * mid as int <= 4_294_967_296int * 4_294_967_296int)
            by (nonlinear_arith)
            requires 0 <= mid as int <= 4_294_967_296int,
        ;
        if (mid as u128) * (mid as u128) <= n as u128 {
            lo = mid;
        } else {
            hi = mid;
        }
    }
    assert(hi == lo + 1);
    proof {
        lemma_isqrt_is(n as int, lo as int);
    }
    lo
}

} // verus!
