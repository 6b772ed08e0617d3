//! Fixed-point scalars: a value is an `i64` holding `FX_ONE` raw units per
//! 1.0.  Multiplication scales the double-width product back down with a
//! floor division, so every operation has an exact integer specification.

use vstd::prelude::*;
use vstd::arithmetic::div_mod::lemma_div_multiples_vanish;
use vstd::arithmetic::div_mod::lemma_div_is_ordered;

verus! {

/// Raw units per 1.0.
pub const FX_ONE: i64 = 65536;

/// Magnitude cap on matrix entries; keeps every four-term dot product far
/// inside `i128` during multiplication.
pub const FX_ABS_MAX: i64 = 0x1000_0000_0000_0000;

/// Whether a mathematical integer is representable as an `i64`.
pub open spec fn fits_i64(x: int) -> bool {
    i64::MIN <= x <= i64::MAX
}

/// The fixed-point product: the exact integer product scaled back down,
/// rounding toward negative infinity.
pub open spec fn fx_mul_s(a: int, b: int) -> int {
    (a * b) / (FX_ONE as int)
}

/// Fixed-point multiplication.
pub fn fx_mul(a: i64, b: i64) -> (r: i64)
    requires
        i64::MIN <= fx_mul_s(a as int, b as int) <= i64::MAX,
    ensures
        r as int == fx_mul_s(a as int, b as int),
{
    proof {
        assert(i128::MIN <= (a as int) * (b as int) <= i128::MAX) by (nonlinear_arith)
            requires
                i64::MIN <= a <= i64::MAX,
                i64::MIN <= b <= i64::MAX,
        {}
    }
    let p: i128 = (a as i128) * (b as i128);
    proof {
        lemma_fx_div_in_range(p as int);
    }
    let q: i128 = p.checked_div_euclid(FX_ONE as i128).unwrap();
    q as i64
}

/// The floor quotient of any `i128` by `FX_ONE` stays inside `i128`.
pub proof fn lemma_fx_div_in_range(p: int)
    requires
        i128::MIN <= p <= i128::MAX,
    ensures
        i128::MIN <= p / (FX_ONE as int) <= i128::MAX,
{
    let k = FX_ONE as int;
    if p >= 0 {
        lemma_div_is_ordered(0, p, k);
        vstd::arithmetic::div_mod::lemma_div_nonincreasing(p, k);
    } else {
        lemma_div_is_ordered(p, 0, k);
        vstd::arithmetic::div_mod::lemma_fundamental_div_mod(p, k);
        assert(p / k >= i128::MIN) by (nonlinear_arith)
            requires
                k == 65536,
                k * (p / k) + (p % k) == p,
                0 <= p % k < k,
                i128::MIN <= p,
        {}
    }
}

/// Scaling a nonnegative value by a factor of magnitude at most 1.0 cannot
/// grow it.
pub proof fn lemma_fx_mul_unit_bound(r: int, u: int)
    requires
        0 <= r,
        -(FX_ONE as int) <= u <= FX_ONE as int,
    ensures
        -r <= fx_mul_s(r, u) <= r,
{
    let k = FX_ONE as int;
    assert(-(r * k) <= r * u <= r * k) by (nonlinear_arith)
        requires
            0 <= r,
            -k <= u <= k,
    {}
    lemma_div_is_ordered(-(r * k), r * u, k);
    lemma_div_is_ordered(r * u, r * k, k);
    lemma_div_multiples_vanish(r, k);
    lemma_div_multiples_vanish(-r, k);
}

} // verus!
