//! The library's laws: properties that hold across operations, stated over
//! the same spec functions the operations' own contracts use and proved once
//! and for all.

use vstd::prelude::*;
use crate::book::sum_amounts;
use crate::contract::add_minted;
use crate::contract::add_post;
use crate::contract::remove_post;
use crate::contract::add_used_orai;
use crate::contract::add_used_usdt;
use crate::contract::denom_orai;
use crate::contract::denom_usdt;
use crate::contract::spec_pool_info;
use crate::contract::swap_post;
use crate::error::ContractError;
use crate::math::isqrt;
use crate::math::lemma_div_bound_le;
use crate::math::lemma_div_mul_le;
use crate::math::lemma_div_strict_bound;
use crate::math::lemma_isqrt_exists;
use crate::math::lemma_isqrt_pos;
use crate::msg::PoolInfoResponse;
use crate::msg::TokenInstruction;
use crate::state::AmmState;
use crate::state::LiquidityPool;
use crate::state::pool_wf;
use crate::state::state_wf;

verus! {

/// Conservation: in every well-formed state — and every operation's contract
/// guarantees the state it leaves behind is well-formed — the outstanding
/// share total equals the sum of all recorded share balances.
pub proof fn lemma_conservation(s: AmmState)
    requires
        state_wf(s),
    ensures
        s.pool.total_shares == sum_amounts(s.providers@),
{
}

/// Non-negativity: reserves and the share total are unsigned and can never
/// hold a negative value, in any state an operation can produce.
pub proof fn lemma_non_negativity(s: AmmState)
    ensures
        0 <= s.pool.orai_reserve,
        0 <= s.pool.usdt_reserve,
        0 <= s.pool.total_shares,
{
}

/// Swap monotonicity: every successful swap strictly grows the input-asset
/// reserve and strictly shrinks the output-asset reserve.
pub proof fn lemma_swap_monotonic(
    pre: AmmState,
    post: AmmState,
    sender: String,
    self_addr: String,
    funds_orai: u128,
    usdt_allowance: u128,
    denom: Seq<char>,
    amount: u128,
    r: Result<Vec<TokenInstruction>, ContractError>,
)
    requires
        swap_post(pre, post, sender, self_addr, funds_orai, usdt_allowance, denom, amount, r),
        r is Ok,
    ensures
        denom == denom_orai() ==> post.pool.orai_reserve > pre.pool.orai_reserve
            && post.pool.usdt_reserve < pre.pool.usdt_reserve,
        denom != denom_orai() && denom == denom_usdt() ==> post.pool.usdt_reserve
            > pre.pool.usdt_reserve && post.pool.orai_reserve < pre.pool.orai_reserve,
{
}

/// Queries are idempotent: two pool-state reads against the same state
/// return identical results, because each is fully determined by the state.
pub proof fn lemma_pool_query_deterministic(s: AmmState, r1: PoolInfoResponse, r2: PoolInfoResponse)
    requires
        r1 == spec_pool_info(s),
        r2 == spec_pool_info(s),
    ensures
        r1 == r2,
{
}

/// Seeding then immediately unwinding is exact: after a first contribution
/// `(a, b)` seeds an empty pool, redeeming every share just minted pays back
/// exactly `a` and `b`. The hypotheses are what the contracts of adding and
/// removing liquidity state: the pool becomes `(a, b)` with `isqrt(a * b)`
/// shares, and redeeming `m` shares pays `m * reserve / shares`, rounded
/// down.
pub proof fn lemma_seed_then_remove_returns_all(a: int, b: int, m: int, a_out: int, b_out: int)
    requires
        1 <= a,
        1 <= b,
        m == isqrt(a * b),
        a_out == m * a / m,
        b_out == m * b / m,
    ensures
        a_out == a,
        b_out == b,
{
    assert(a * b >= 1) by (nonlinear_arith)
        requires
            a >= 1,
            b >= 1,
    ;
    lemma_isqrt_exists(a * b);
    lemma_isqrt_pos(a * b, m);
    assert(m * a / m == a) by (nonlinear_arith)
        requires
            m >= 1,
    ;
    assert(m * b / m == b) by (nonlinear_arith)
        requires
            m >= 1,
    ;
}

/// Adding liquidity to a seeded pool and immediately redeeming the shares
/// just minted never pays back more than was contributed: the pay-outs are
/// bounded by the declared amounts, short of them only by the rounding the
/// contracts state. The hypotheses are what the contracts of adding and
/// removing liquidity state: the pool grows by the trimmed amounts and the
/// minted shares, and redeeming `m` shares of the grown pool pays
/// `m * reserve / shares`, rounded down.
pub proof fn lemma_add_then_remove_bounded(
    p: LiquidityPool,
    a: int,
    b: int,
    a_out: int,
    b_out: int,
)
    requires
        pool_wf(p),
        p.total_shares >= 1,
        1 <= a,
        1 <= b,
        a_out == add_minted(p, a, b) * (p.orai_reserve + add_used_orai(p, a, b)) / (p.total_shares
            + add_minted(p, a, b)),
        b_out == add_minted(p, a, b) * (p.usdt_reserve + add_used_usdt(p, a, b)) / (p.total_shares
            + add_minted(p, a, b)),
    ensures
        a_out <= a,
        b_out <= b,
{
    let ra = p.orai_reserve as int;
    let rb = p.usdt_reserve as int;
    let t = p.total_shares as int;
    let ua = add_used_orai(p, a, b);
    let ub = add_used_usdt(p, a, b);
    let m = add_minted(p, a, b);
    assert(ra >= 1 && rb >= 1);

    // The trimmed amounts never exceed the declared ones.
    if a * rb > b * ra {
        assert(b * ra >= 0) by (nonlinear_arith)
            requires
                b >= 1,
                ra >= 1,
        ;
        lemma_div_strict_bound(b * ra, rb, a);
        lemma_div_mul_le(b * ra, rb);
    }
    if a * rb < b * ra {
        assert(a * rb >= 0) by (nonlinear_arith)
            requires
                a >= 1,
                rb >= 1,
        ;
        lemma_div_strict_bound(a * rb, ra, b);
        lemma_div_mul_le(a * rb, ra);
    }
    assert(0 <= ua <= a);
    assert(0 <= ub <= b);

    // The trimmed native amount matches the ratio from below: ua * rb <= b * ra.
    assert(ua * rb <= b * ra) by (nonlinear_arith)
        requires
            ua == (if a * rb > b * ra {
                b * ra / rb
            } else {
                a
            }),
            (b * ra / rb) * rb <= b * ra || !(a * rb > b * ra),
            a * rb <= b * ra || a * rb > b * ra,
    ;

    // Flooring the mint: m * ra <= ua * t.
    assert(ua * t >= 0) by (nonlinear_arith)
        requires
            ua >= 0,
            t >= 1,
    ;
    lemma_div_mul_le(ua * t, ra);
    assert(m * ra <= ua * t) by (nonlinear_arith)
        requires
            m == ua * t / ra,
            (ua * t / ra) * ra <= ua * t,
    ;
    assert(m >= 0);

    // The native pay-out is at most the trimmed native amount.
    assert(m * (ra + ua) <= ua * (t + m)) by (nonlinear_arith)
        requires
            m * ra <= ua * t,
            m >= 0,
            ua >= 0,
    ;
    assert(m * (ra + ua) >= 0) by (nonlinear_arith)
        requires
            m >= 0,
            ra >= 1,
            ua >= 0,
    ;
    assert(ua * (t + m) <= a * (t + m)) by (nonlinear_arith)
        requires
            ua <= a,
            t >= 1,
            m >= 0,
    ;
    lemma_div_bound_le(m * (ra + ua), t + m, ua);
    assert(a_out <= a);

    // Chained ratio bound: m * rb <= b * t.
    assert(m * rb * ra <= b * t * ra) by (nonlinear_arith)
        requires
            m * ra <= ua * t,
            ua * rb <= b * ra,
            rb >= 1,
            t >= 1,
            m >= 0,
            ua >= 0,
    ;
    assert(m * rb <= b * t) by (nonlinear_arith)
        requires
            m * rb * ra <= b * t * ra,
            ra >= 1,
    ;

    // The token pay-out is at most the trimmed token amount's declared bound.
    assert(m * (rb + ub) <= b * (t + m)) by (nonlinear_arith)
        requires
            m * rb <= b * t,
            ub <= b,
            m >= 0,
    ;
    assert(m * (rb + ub) >= 0) by (nonlinear_arith)
        requires
            m >= 0,
            rb >= 1,
            ub >= 0,
    ;
    lemma_div_bound_le(m * (rb + ub), t + m, b);
    assert(b_out <= b);
}

/// Add/remove near-identity, end to end: after a successful contribution of
/// `(a, b)` and a successful redemption of exactly the shares it minted, the
/// reserves gave back at most `a` of the native asset and at most `b` of the
/// token — the redeemer can lose to rounding but never gain. The hypotheses
/// are the two operations' own contracts, run back to back by one sender.
pub proof fn lemma_add_then_remove_returns_no_more(
    s0: AmmState,
    s1: AmmState,
    s2: AmmState,
    sender: String,
    self_addr: String,
    funds_orai: u128,
    usdt_allowance: u128,
    lpt_allowance: u128,
    a: u128,
    b: u128,
    minted: u128,
    r1: Result<Vec<TokenInstruction>, ContractError>,
    r2: Result<Vec<TokenInstruction>, ContractError>,
)
    requires
        state_wf(s0),
        add_post(s0, s1, sender, self_addr, funds_orai, usdt_allowance, a, b, r1),
        r1 is Ok,
        minted == s1.pool.total_shares - s0.pool.total_shares,
        remove_post(s1, s2, sender, lpt_allowance, minted, r2),
        r2 is Ok,
    ensures
        s1.pool.orai_reserve - s2.pool.orai_reserve <= a,
        s1.pool.usdt_reserve - s2.pool.usdt_reserve <= b,
{
    let p = s0.pool;
    let a_out = (minted as int) * (s1.pool.orai_reserve as int) / (s1.pool.total_shares as int);
    let b_out = (minted as int) * (s1.pool.usdt_reserve as int) / (s1.pool.total_shares as int);
    assert(s1.pool.orai_reserve - s2.pool.orai_reserve == a_out);
    assert(s1.pool.usdt_reserve - s2.pool.usdt_reserve == b_out);
    if p.orai_reserve == 0 || p.usdt_reserve == 0 {
        assert((a as int) * (b as int) >= 1) by (nonlinear_arith)
            requires
                a >= 1,
                b >= 1,
        ;
        lemma_isqrt_exists((a as int) * (b as int));
        lemma_isqrt_pos((a as int) * (b as int), isqrt((a as int) * (b as int)));
        lemma_seed_then_remove_returns_all(a as int, b as int, minted as int, a_out, b_out);
    } else {
        lemma_add_then_remove_bounded(p, a as int, b as int, a_out, b_out);
    }
}

} // verus!
