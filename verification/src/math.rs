//! Pricing arithmetic: integer square root for the initial share issuance and
//! the constant-product quote with a basis-point trading fee. Everything is
//! exact unsigned integer arithmetic; every division rounds down.

use vstd::prelude::*;

verus! {

/// Basis-point scale: a fee of `FEE_SCALE` basis points would be the whole amount.
pub const FEE_SCALE: u128 = 10000;

/// The pool's trading fee in basis points (0.30%).
pub const FEE_BPS: u128 = 30;

/// `r` is the integer square root of `n`: the largest integer whose square
/// does not exceed `n`.
pub open spec fn is_isqrt(n: int, r: int) -> bool {
    0 <= r && r * r <= n && n < (r + 1) * (r + 1)
}

/// The integer square root of a nonnegative integer.
pub open spec fn isqrt(n: int) -> int {
    choose|r: int| is_isqrt(n, r)
}

/// Only one integer satisfies `is_isqrt(n, _)`, and it is `isqrt(n)`.
pub proof fn lemma_isqrt_unique(n: int, r: int)
    requires
        is_isqrt(n, r),
    ensures
        isqrt(n) == r,
{
    assert(is_isqrt(n, isqrt(n))) by {
        assert(exists|s: int| is_isqrt(n, s));
    }
    let r2 = isqrt(n);
    assert(r == r2) by (nonlinear_arith)
        requires
            is_isqrt(n, r),
            is_isqrt(n, r2),
    ;
}

/// The integer square root of a positive integer is positive.
pub proof fn lemma_isqrt_pos(n: int, r: int)
    by (nonlinear_arith)
    requires
        is_isqrt(n, r),
        n >= 1,
    ensures
        r >= 1,
{
}

/// Every nonnegative integer has an integer square root, and `isqrt` is it.
pub proof fn lemma_isqrt_exists(n: int)
    requires
        n >= 0,
    ensures
        is_isqrt(n, isqrt(n)),
    decreases n,
{
    if n == 0 {
        assert(is_isqrt(0, 0));
    } else {
        lemma_isqrt_exists(n - 1);
        let r = isqrt(n - 1);
        if n < (r + 1) * (r + 1) {
            assert(is_isqrt(n, r));
        } else {
            assert(n == (r + 1) * (r + 1));
            assert(is_isqrt(n, r + 1)) by (nonlinear_arith)
                requires
                    n == (r + 1) * (r + 1),
                    r >= 0,
            ;
        }
    }
}

/// Integer square root by binary search over the 64-bit candidate range.
pub fn sqrt(value: u128) -> (r: u128)
    ensures
        is_isqrt(value as int, r as int),
        r as int == isqrt(value as int),
{
    let mut lo: u128 = 0;
    let mut hi: u128 = 0xffff_ffff_ffff_ffff;
    assert((hi + 1) * (hi + 1) > value) by (nonlinear_arith)
        requires
            hi == 0xffff_ffff_ffff_ffffu128,
    ;
    while lo < hi
        invariant
            lo <= hi,
            hi <= 0xffff_ffff_ffff_ffff,
            lo * lo <= value,
            (value as int) < (hi + 1) * (hi + 1),
        decreases hi - lo,
    {
        let mid: u128 = lo + (hi - lo + 1) / 2;
        assert(lo < mid <= hi);
        assert(mid * mid <= 0xffff_ffff_ffff_ffff * 0xffff_ffff_ffff_ffff) by (nonlinear_arith)
            requires
                mid <= 0xffff_ffff_ffff_ffff,
        ;
        if mid * mid <= value {
            lo = mid;
        } else {
            hi = mid - 1;
        }
    }
    proof {
        lemma_isqrt_unique(value as int, lo as int);
    }
    lo
}

/// The constant-product quote before flooring, as a pair of numerator and
/// denominator: `amount_in` discounted by the fee buys a share of
/// `reserve_out` proportional to its weight against `reserve_in`.
pub open spec fn quote_num(reserve_out: int, amount_in: int, fee_bps: int) -> int {
    amount_in * (FEE_SCALE - fee_bps) * reserve_out
}

/// See [`quote_num`].
pub open spec fn quote_den(reserve_in: int, amount_in: int, fee_bps: int) -> int {
    reserve_in * (FEE_SCALE as int) + amount_in * (FEE_SCALE - fee_bps)
}

/// The output amount of a swap: the fee is charged on the input, the product
/// of the reserves never decreases, and the result rounds down.
pub open spec fn spec_quote(reserve_in: int, reserve_out: int, amount_in: int, fee_bps: int) -> int {
    quote_num(reserve_out, amount_in, fee_bps) / quote_den(reserve_in, amount_in, fee_bps)
}

/// Dividing by a positive divisor respects an upper bound given by a product:
/// if `n < d * b` then `n / d < b`.
pub proof fn lemma_div_strict_bound(n: int, d: int, b: int)
    by (nonlinear_arith)
    requires
        d > 0,
        0 <= n,
        n < d * b,
    ensures
        n / d < b,
{
}

/// Dividing by a positive divisor respects an upper bound given by a product:
/// if `n <= d * b` and `b` is nonnegative then `n / d <= b`.
pub proof fn lemma_div_bound_le(n: int, d: int, b: int)
    by (nonlinear_arith)
    requires
        d > 0,
        0 <= n,
        0 <= b,
        n <= d * b,
    ensures
        n / d <= b,
{
}

/// Flooring a quotient and multiplying back never exceeds the dividend.
pub proof fn lemma_div_mul_le(n: int, d: int)
    by (nonlinear_arith)
    requires
        d > 0,
        0 <= n,
    ensures
        (n / d) * d <= n,
        0 <= n / d,
{
}

/// Comparing two floored fractions by cross-multiplication:
/// `n1 / d1 <= n2 / d2` whenever `n1 * d2 <= n2 * d1`.
pub proof fn lemma_div_cross_le(n1: int, d1: int, n2: int, d2: int)
    by (nonlinear_arith)
    requires
        d1 > 0,
        d2 > 0,
        n1 >= 0,
        n2 >= 0,
        n1 * d2 <= n2 * d1,
    ensures
        n1 / d1 <= n2 / d2,
{
    let q1 = n1 / d1;
    assert(q1 * d1 <= n1);
    assert(q1 * d1 * d2 <= n1 * d2);
    assert(q1 * d2 * d1 <= n2 * d1);
    assert(q1 * d2 <= n2);
    assert(q1 <= n2 / d2);
}

/// Division is monotone in the dividend.
pub proof fn lemma_div_le_mono(n1: int, n2: int, d: int)
    by (nonlinear_arith)
    requires
        d > 0,
        0 <= n1 <= n2,
    ensures
        n1 / d <= n2 / d,
{
}

/// The quote is always strictly below the output reserve: a swap can never
/// drain the pool's output side.
pub proof fn lemma_quote_lt_reserve_out(reserve_in: int, reserve_out: int, amount_in: int, fee_bps: int)
    requires
        reserve_in >= 1,
        reserve_out >= 1,
        amount_in >= 0,
        0 <= fee_bps <= FEE_SCALE,
    ensures
        spec_quote(reserve_in, reserve_out, amount_in, fee_bps) < reserve_out,
{
    let n = quote_num(reserve_out, amount_in, fee_bps);
    let d = quote_den(reserve_in, amount_in, fee_bps);
    assert(d > 0 && n >= 0 && n < d * reserve_out) by (nonlinear_arith)
        requires
            reserve_in >= 1,
            reserve_out >= 1,
            amount_in >= 0,
            0 <= fee_bps <= FEE_SCALE,
            n == quote_num(reserve_out, amount_in, fee_bps),
            d == quote_den(reserve_in, amount_in, fee_bps),
    ;
    lemma_div_strict_bound(n, d, reserve_out);
}

/// Raising the fee never increases the output: for the same reserves and
/// input, a quote at a higher fee is at most the quote at a lower fee. In
/// particular, the fee-charged output never exceeds the fee-free output.
/// Because both quotes round down, the two outputs can coincide.
pub proof fn lemma_fee_never_increases_output(
    reserve_in: int,
    reserve_out: int,
    amount_in: int,
    fee_lo: int,
    fee_hi: int,
)
    requires
        reserve_in >= 1,
        reserve_out >= 1,
        amount_in >= 0,
        0 <= fee_lo <= fee_hi <= FEE_SCALE,
    ensures
        spec_quote(reserve_in, reserve_out, amount_in, fee_hi)
            <= spec_quote(reserve_in, reserve_out, amount_in, fee_lo),
{
    let n_hi = quote_num(reserve_out, amount_in, fee_hi);
    let d_hi = quote_den(reserve_in, amount_in, fee_hi);
    let n_lo = quote_num(reserve_out, amount_in, fee_lo);
    let d_lo = quote_den(reserve_in, amount_in, fee_lo);
    assert(d_hi > 0 && d_lo > 0 && n_hi >= 0 && n_lo >= 0 && n_hi * d_lo <= n_lo * d_hi)
        by (nonlinear_arith)
        requires
            reserve_in >= 1,
            reserve_out >= 1,
            amount_in >= 0,
            0 <= fee_lo <= fee_hi <= FEE_SCALE,
            n_hi == quote_num(reserve_out, amount_in, fee_hi),
            d_hi == quote_den(reserve_in, amount_in, fee_hi),
            n_lo == quote_num(reserve_out, amount_in, fee_lo),
            d_lo == quote_den(reserve_in, amount_in, fee_lo),
    ;
    lemma_div_cross_le(n_hi, d_hi, n_lo, d_lo);
}

/// Price a swap: `amount_in` of the input asset buys `quote(...)` of the
/// output asset, after the fee is deducted from the input.
pub fn quote(reserve_in: u128, reserve_out: u128, amount_in: u128, fee_bps: u128) -> (amount_out: u128)
    requires
        reserve_in >= 1,
        reserve_out >= 1,
        amount_in >= 1,
        fee_bps <= FEE_SCALE,
        quote_num(reserve_out as int, amount_in as int, fee_bps as int) <= u128::MAX,
        quote_den(reserve_in as int, amount_in as int, fee_bps as int) <= u128::MAX,
    ensures
        amount_out == spec_quote(reserve_in as int, reserve_out as int, amount_in as int, fee_bps as int),
        amount_out < reserve_out,
{
    let keep: u128 = FEE_SCALE - fee_bps;
    assert(amount_in * keep <= amount_in * keep * reserve_out) by (nonlinear_arith)
        requires
            amount_in >= 1,
            keep >= 0,
            reserve_out >= 1,
    ;
    let in_with_fee: u128 = amount_in * keep;
    let numerator: u128 = in_with_fee * reserve_out;
    let denominator: u128 = reserve_in * FEE_SCALE + in_with_fee;
    proof {
        lemma_quote_lt_reserve_out(reserve_in as int, reserve_out as int, amount_in as int, fee_bps as int);
    }
    numerator / denominator
}

} // verus!
