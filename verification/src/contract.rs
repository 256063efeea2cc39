//! The pool's operations: deployment, adding and removing liquidity,
//! swapping, and the read-only queries. Every mutating operation validates
//! its inputs in a fixed order, aborts with the state untouched on the first
//! failure, and on success commits the new state and returns the outbound
//! token-movement instructions in their required order.

use vstd::prelude::*;
use crate::book::amount_of;
use crate::book::book_contains;
use crate::book::book_credit;
use crate::book::book_debit;
use crate::book::book_get;
use crate::book::book_lookup;
use crate::book::book_set;
use crate::book::lemma_amount_of_le_sum;
use crate::error::ContractError;
use crate::math::FEE_BPS;
use crate::math::isqrt;
use crate::math::lemma_div_strict_bound;
use crate::math::lemma_div_le_mono;
use crate::math::lemma_isqrt_pos;
use crate::math::quote;
use crate::math::quote_den;
use crate::math::quote_num;
use crate::math::spec_quote;
use crate::msg::ContractInfoResponse;
use crate::msg::ExecuteMsg;
use crate::msg::InstantiateMsg;
use crate::msg::LptBalanceResponse;
use crate::msg::PoolInfoResponse;
use crate::msg::QueryAnswer;
use crate::msg::QueryMsg;
use crate::msg::TokenInstruction;
use crate::msg::USDTAllowanceResponse;
use crate::state::AmmState;
use crate::state::ContractInfo;
use crate::state::LiquidityPool;
use crate::state::state_wf;

verus! {

/// The identifier of the native asset.
pub open spec fn denom_orai() -> Seq<char> {
    "orai"@
}

/// The identifier of the external token asset.
pub open spec fn denom_usdt() -> Seq<char> {
    "usdt"@
}

/// The identifier of the native asset, as an owned string.
pub fn orai_string() -> (s: String)
    ensures
        s@ == denom_orai(),
{
    "orai".to_owned()
}

/// The identifier of the external token asset, as an owned string.
pub fn usdt_string() -> (s: String)
    ensures
        s@ == denom_usdt(),
{
    "usdt".to_owned()
}

/// The two asset identifiers are different strings.
pub proof fn lemma_denoms_distinct()
    ensures
        denom_orai() != denom_usdt(),
{
    reveal_strlit("orai");
    reveal_strlit("usdt");
    assert(denom_orai()[0] == 'o');
    assert(denom_usdt()[0] == 'u');
}

/// The allowance reported for an account that never had its allowance
/// observed and cached.
pub const UNCACHED_ALLOWANCE_SENTINEL: u128 = 123;

/// Create the deployment state: the configuration is recorded and the pool
/// starts completely empty.
pub fn instantiate(sender: String, msg: InstantiateMsg) -> (s: AmmState)
    ensures
        state_wf(s),
        s.info.owner == sender,
        s.info.usdt_contract == msg.usdt_contract,
        s.info.lpt_contract == msg.lpt_contract,
        s.pool.orai_reserve == 0,
        s.pool.usdt_reserve == 0,
        s.pool.total_shares == 0,
        s.providers@.len() == 0,
        s.usdt_allowances@.len() == 0,
{
    AmmState {
        info: ContractInfo {
            owner: sender,
            usdt_contract: msg.usdt_contract,
            lpt_contract: msg.lpt_contract,
        },
        pool: LiquidityPool { orai_reserve: 0, usdt_reserve: 0, total_shares: 0 },
        providers: Vec::new(),
        usdt_allowances: Vec::new(),
    }
}

/// Build the instruction that pays out `amount` of the native asset, which
/// must be positive.
pub fn transfer_orai(recipient: String, amount: u128) -> (r: Result<
    TokenInstruction,
    ContractError,
>)
    ensures
        amount == 0 ==> r == Err::<TokenInstruction, ContractError>(ContractError::InvalidAmount),
        amount > 0 ==> r == Ok::<TokenInstruction, ContractError>(
            TokenInstruction::NativeTransfer { recipient, amount },
        ),
{
    if amount == 0 {
        return Err(ContractError::InvalidAmount);
    }
    Ok(TokenInstruction::NativeTransfer { recipient, amount })
}

/// Build the instruction that pays out `amount` of the external token, which
/// must be positive.
pub fn transfer_usdt(info: &ContractInfo, recipient: String, amount: u128) -> (r: Result<
    TokenInstruction,
    ContractError,
>)
    ensures
        amount == 0 ==> r == Err::<TokenInstruction, ContractError>(ContractError::InvalidAmount),
        amount > 0 ==> r == Ok::<TokenInstruction, ContractError>(
            TokenInstruction::Cw20Transfer { token: info.usdt_contract, recipient, amount },
        ),
{
    if amount == 0 {
        return Err(ContractError::InvalidAmount);
    }
    Ok(TokenInstruction::Cw20Transfer {
        token: info.usdt_contract.clone(),
        recipient,
        amount,
    })
}

/// Build the pay-out instruction for whichever of the two assets `denom`
/// names; any other identifier is rejected.
pub fn transfer_token(info: &ContractInfo, denom: &String, recipient: String, amount: u128) -> (r:
    Result<TokenInstruction, ContractError>)
    ensures
        denom@ == denom_usdt() && amount == 0 ==> r == Err::<TokenInstruction, ContractError>(
            ContractError::InvalidAmount,
        ),
        denom@ == denom_usdt() && amount > 0 ==> r == Ok::<TokenInstruction, ContractError>(
            TokenInstruction::Cw20Transfer { token: info.usdt_contract, recipient, amount },
        ),
        denom@ != denom_usdt() && denom@ == denom_orai() && amount == 0 ==> r == Err::<
            TokenInstruction,
            ContractError,
        >(ContractError::InvalidAmount),
        denom@ != denom_usdt() && denom@ == denom_orai() && amount > 0 ==> r == Ok::<
            TokenInstruction,
            ContractError,
        >(TokenInstruction::NativeTransfer { recipient, amount }),
        denom@ != denom_usdt() && denom@ != denom_orai() ==> r == Err::<
            TokenInstruction,
            ContractError,
        >(ContractError::UnsupportedAsset),
{
    let usdt = usdt_string();
    let orai = orai_string();
    if *denom == usdt {
        transfer_usdt(info, recipient, amount)
    } else if *denom == orai {
        transfer_orai(recipient, amount)
    } else {
        Err(ContractError::UnsupportedAsset)
    }
}

/// Price a swap against the current reserves: the quote for `amount` of the
/// asset `denom` names, at the pool's fixed fee. Any other identifier is
/// rejected and nothing is computed.
pub fn calculate_swap_amount(pool: &LiquidityPool, denom: &String, amount: u128) -> (r: Result<
    u128,
    ContractError,
>)
    requires
        pool.orai_reserve >= 1,
        pool.usdt_reserve >= 1,
        amount >= 1,
        denom@ == denom_orai() ==> quote_num(
            pool.usdt_reserve as int,
            amount as int,
            FEE_BPS as int,
        ) <= u128::MAX && quote_den(pool.orai_reserve as int, amount as int, FEE_BPS as int)
            <= u128::MAX,
        denom@ == denom_usdt() ==> quote_num(
            pool.orai_reserve as int,
            amount as int,
            FEE_BPS as int,
        ) <= u128::MAX && quote_den(pool.usdt_reserve as int, amount as int, FEE_BPS as int)
            <= u128::MAX,
    ensures
        denom@ == denom_orai() ==> (r matches Ok(out) && out == spec_quote(
            pool.orai_reserve as int,
            pool.usdt_reserve as int,
            amount as int,
            FEE_BPS as int,
        ) && out < pool.usdt_reserve),
        denom@ != denom_orai() && denom@ == denom_usdt() ==> (r matches Ok(out) && out
            == spec_quote(
            pool.usdt_reserve as int,
            pool.orai_reserve as int,
            amount as int,
            FEE_BPS as int,
        ) && out < pool.orai_reserve),
        denom@ != denom_orai() && denom@ != denom_usdt() ==> r == Err::<u128, ContractError>(
            ContractError::UnsupportedAsset,
        ),
{
    let orai = orai_string();
    let usdt = usdt_string();
    if *denom == orai {
        Ok(quote(pool.orai_reserve, pool.usdt_reserve, amount, FEE_BPS))
    } else if *denom == usdt {
        Ok(quote(pool.usdt_reserve, pool.orai_reserve, amount, FEE_BPS))
    } else {
        Err(ContractError::UnsupportedAsset)
    }
}

/// The arithmetic room a swap needs from the machine: whenever the
/// validations would pass and the quote is actually computed, its
/// intermediate products and the grown reserve must fit in 128 bits.
pub open spec fn swap_requires(
    pre: AmmState,
    funds_orai: u128,
    usdt_allowance: u128,
    denom: Seq<char>,
    amount: u128,
) -> bool {
    let p = pre.pool;
    amount >= 1 && p.orai_reserve >= 1 && p.usdt_reserve >= 1 ==> {
        &&& denom == denom_orai() && funds_orai >= amount ==> {
            &&& quote_num(p.usdt_reserve as int, amount as int, FEE_BPS as int) <= u128::MAX
            &&& quote_den(p.orai_reserve as int, amount as int, FEE_BPS as int) <= u128::MAX
            &&& p.orai_reserve + amount <= u128::MAX
        }
        &&& denom == denom_usdt() && usdt_allowance >= amount ==> {
            &&& quote_num(p.orai_reserve as int, amount as int, FEE_BPS as int) <= u128::MAX
            &&& quote_den(p.usdt_reserve as int, amount as int, FEE_BPS as int) <= u128::MAX
            &&& p.usdt_reserve + amount <= u128::MAX
        }
    }
}

/// Everything a swap does, for every input. The validations are tried in
/// order and the first failure names the error and leaves the state as it
/// was; on success the input reserve grows by the full input amount, the
/// output reserve shrinks by the quoted amount, and the pay-out instructions
/// are returned in order.
pub open spec fn swap_post(
    pre: AmmState,
    post: AmmState,
    sender: String,
    self_addr: String,
    funds_orai: u128,
    usdt_allowance: u128,
    denom: Seq<char>,
    amount: u128,
    r: Result<Vec<TokenInstruction>, ContractError>,
) -> bool {
    let p = pre.pool;
    if amount == 0 {
        post == pre && r == Err::<Vec<TokenInstruction>, ContractError>(
            ContractError::InvalidAmount,
        )
    } else if p.orai_reserve == 0 || p.usdt_reserve == 0 {
        post == pre && r == Err::<Vec<TokenInstruction>, ContractError>(ContractError::EmptyPool)
    } else if denom == denom_orai() {
        if funds_orai < amount {
            post == pre && r == Err::<Vec<TokenInstruction>, ContractError>(
                ContractError::InsufficientFunds,
            )
        } else {
            let out = spec_quote(p.orai_reserve as int, p.usdt_reserve as int, amount as int, FEE_BPS as int);
            if out > p.usdt_reserve {
                post == pre && r == Err::<Vec<TokenInstruction>, ContractError>(
                    ContractError::InsufficientLiquidity,
                )
            } else if out == 0 {
                post == pre && r == Err::<Vec<TokenInstruction>, ContractError>(
                    ContractError::InvalidAmount,
                )
            } else {
                &&& post.pool.orai_reserve == p.orai_reserve + amount
                &&& post.pool.usdt_reserve == p.usdt_reserve - out
                &&& post.pool.total_shares == p.total_shares
                &&& post.providers == pre.providers
                &&& post.usdt_allowances == pre.usdt_allowances
                &&& post.info == pre.info
                &&& r matches Ok(ins) && ins@ =~= seq![
                    TokenInstruction::Cw20Transfer {
                        token: pre.info.usdt_contract,
                        recipient: sender,
                        amount: out as u128,
                    },
                ]
            }
        }
    } else if denom == denom_usdt() {
        if usdt_allowance < amount {
            post == pre && r == Err::<Vec<TokenInstruction>, ContractError>(
                ContractError::InsufficientAllowance,
            )
        } else {
            let out = spec_quote(p.usdt_reserve as int, p.orai_reserve as int, amount as int, FEE_BPS as int);
            if out > p.orai_reserve {
                post == pre && r == Err::<Vec<TokenInstruction>, ContractError>(
                    ContractError::InsufficientLiquidity,
                )
            } else if out == 0 {
                post == pre && r == Err::<Vec<TokenInstruction>, ContractError>(
                    ContractError::InvalidAmount,
                )
            } else {
                &&& post.pool.usdt_reserve == p.usdt_reserve + amount
                &&& post.pool.orai_reserve == p.orai_reserve - out
                &&& post.pool.total_shares == p.total_shares
                &&& post.providers == pre.providers
                &&& post.usdt_allowances == pre.usdt_allowances
                &&& post.info == pre.info
                &&& r matches Ok(ins) && ins@ =~= seq![
                    TokenInstruction::Cw20TransferFrom {
                        token: pre.info.usdt_contract,
                        owner: sender,
                        recipient: self_addr,
                        amount: amount,
                    },
                    TokenInstruction::NativeTransfer { recipient: sender, amount: out as u128 },
                ]
            }
        }
    } else {
        post == pre && r == Err::<Vec<TokenInstruction>, ContractError>(
            ContractError::UnsupportedAsset,
        )
    }
}

/// Trade `amount` of the asset `denom` names for the other asset. The input
/// must be positive and the pool seeded; the input must be covered by the
/// attached native funds or by the granted allowance, depending on the input
/// asset; the output is priced by [`calculate_swap_amount`] and paid out to
/// the sender.
pub fn swap(
    state: &mut AmmState,
    sender: &String,
    self_addr: &String,
    funds_orai: u128,
    usdt_allowance: u128,
    denom: &String,
    amount: u128,
) -> (r: Result<Vec<TokenInstruction>, ContractError>)
    requires
        state_wf(*old(state)),
        swap_requires(*old(state), funds_orai, usdt_allowance, denom@, amount),
    ensures
        state_wf(*final(state)),
        swap_post(
            *old(state),
            *final(state),
            *sender,
            *self_addr,
            funds_orai,
            usdt_allowance,
            denom@,
            amount,
            r,
        ),
{
    if amount == 0 {
        return Err(ContractError::InvalidAmount);
    }
    if state.pool.orai_reserve == 0 || state.pool.usdt_reserve == 0 {
        return Err(ContractError::EmptyPool);
    }
    proof {
        lemma_denoms_distinct();
    }
    let orai = orai_string();
    let usdt = usdt_string();
    if *denom == orai {
        if funds_orai < amount {
            return Err(ContractError::InsufficientFunds);
        }
        let out = match calculate_swap_amount(&state.pool, denom, amount) {
            Ok(out) => out,
            Err(e) => { return Err(e) },
        };
        if out > state.pool.usdt_reserve {
            return Err(ContractError::InsufficientLiquidity);
        }
        if out == 0 {
            return Err(ContractError::InvalidAmount);
        }
        state.pool.orai_reserve = state.pool.orai_reserve + amount;
        state.pool.usdt_reserve = state.pool.usdt_reserve - out;
        let pay_out = match transfer_usdt(&state.info, sender.clone(), out) {
            Ok(ins) => ins,
            Err(e) => { return Err(e) },
        };
        Ok(vec![pay_out])
    } else if *denom == usdt {
        if usdt_allowance < amount {
            return Err(ContractError::InsufficientAllowance);
        }
        let out = match calculate_swap_amount(&state.pool, denom, amount) {
            Ok(out) => out,
            Err(e) => { return Err(e) },
        };
        if out > state.pool.orai_reserve {
            return Err(ContractError::InsufficientLiquidity);
        }
        if out == 0 {
            return Err(ContractError::InvalidAmount);
        }
        state.pool.usdt_reserve = state.pool.usdt_reserve + amount;
        state.pool.orai_reserve = state.pool.orai_reserve - out;
        let pull_in = TokenInstruction::Cw20TransferFrom {
            token: state.info.usdt_contract.clone(),
            owner: sender.clone(),
            recipient: self_addr.clone(),
            amount,
        };
        let pay_out = match transfer_orai(sender.clone(), out) {
            Ok(ins) => ins,
            Err(e) => { return Err(e) },
        };
        Ok(vec![pull_in, pay_out])
    } else {
        Err(ContractError::UnsupportedAsset)
    }
}

/// The arithmetic room a share redemption needs from the machine: whenever
/// the validations would pass and the pay-outs are actually computed, the
/// two products must fit in 128 bits.
pub open spec fn remove_requires(
    pre: AmmState,
    sender: Seq<char>,
    lpt_allowance: u128,
    lpt_amount: u128,
) -> bool {
    let p = pre.pool;
    (lpt_amount >= 1 && lpt_allowance >= lpt_amount && amount_of(pre.providers@, sender)
        >= lpt_amount && p.total_shares >= 1) ==> {
        &&& lpt_amount * p.orai_reserve <= u128::MAX
        &&& lpt_amount * p.usdt_reserve <= u128::MAX
    }
}

/// Everything a share redemption does, for every input. The validations are
/// tried in order and the first failure names the error and leaves the state
/// as it was; on success both reserves shrink by the redeemed proportion
/// (rounded down), the share total and the sender's balance shrink by the
/// redeemed shares, and the burn and the two pay-outs are returned in order.
pub open spec fn remove_post(
    pre: AmmState,
    post: AmmState,
    sender: String,
    lpt_allowance: u128,
    lpt_amount: u128,
    r: Result<Vec<TokenInstruction>, ContractError>,
) -> bool {
    let p = pre.pool;
    let balance = amount_of(pre.providers@, sender@);
    if lpt_amount == 0 {
        post == pre && r == Err::<Vec<TokenInstruction>, ContractError>(
            ContractError::InvalidAmount,
        )
    } else if lpt_allowance < lpt_amount {
        post == pre && r == Err::<Vec<TokenInstruction>, ContractError>(
            ContractError::InsufficientAllowance,
        )
    } else if balance < lpt_amount {
        post == pre && r == Err::<Vec<TokenInstruction>, ContractError>(
            ContractError::InsufficientBalance,
        )
    } else if p.total_shares == 0 {
        post == pre && r == Err::<Vec<TokenInstruction>, ContractError>(ContractError::EmptyPool)
    } else {
        let orai_out = (lpt_amount as int) * (p.orai_reserve as int) / (p.total_shares as int);
        let usdt_out = (lpt_amount as int) * (p.usdt_reserve as int) / (p.total_shares as int);
        if orai_out > p.orai_reserve || usdt_out > p.usdt_reserve {
            post == pre && r == Err::<Vec<TokenInstruction>, ContractError>(
                ContractError::InsufficientLiquidity,
            )
        } else if usdt_out == 0 || orai_out == 0 {
            post == pre && r == Err::<Vec<TokenInstruction>, ContractError>(
                ContractError::InvalidAmount,
            )
        } else {
            &&& post.pool.orai_reserve == p.orai_reserve - orai_out
            &&& post.pool.usdt_reserve == p.usdt_reserve - usdt_out
            &&& post.pool.total_shares == p.total_shares - lpt_amount
            &&& amount_of(post.providers@, sender@) == balance - lpt_amount
            &&& forall|k: Seq<char>|
                k != sender@ ==> amount_of(post.providers@, k) == amount_of(pre.providers@, k)
            &&& post.usdt_allowances == pre.usdt_allowances
            &&& post.info == pre.info
            &&& r matches Ok(ins) && ins@ =~= seq![
                TokenInstruction::Cw20BurnFrom {
                    token: pre.info.lpt_contract,
                    owner: sender,
                    amount: lpt_amount,
                },
                TokenInstruction::NativeTransfer { recipient: sender, amount: orai_out as u128 },
                TokenInstruction::Cw20Transfer {
                    token: pre.info.usdt_contract,
                    recipient: sender,
                    amount: usdt_out as u128,
                },
            ]
        }
    }
}

/// Redeem `lpt_amount` shares for a proportional part of both reserves. The
/// amount must be positive, covered by the share-token allowance granted to
/// the pool and by the sender's recorded balance, and the pool must be
/// seeded.
pub fn remove_liquidity(
    state: &mut AmmState,
    sender: &String,
    lpt_allowance: u128,
    lpt_amount: u128,
) -> (r: Result<Vec<TokenInstruction>, ContractError>)
    requires
        state_wf(*old(state)),
        remove_requires(*old(state), sender@, lpt_allowance, lpt_amount),
    ensures
        state_wf(*final(state)),
        remove_post(*old(state), *final(state), *sender, lpt_allowance, lpt_amount, r),
{
    if lpt_amount == 0 {
        return Err(ContractError::InvalidAmount);
    }
    if lpt_allowance < lpt_amount {
        return Err(ContractError::InsufficientAllowance);
    }
    let balance = book_lookup(&state.providers, sender);
    if balance < lpt_amount {
        return Err(ContractError::InsufficientBalance);
    }
    if state.pool.total_shares == 0 {
        return Err(ContractError::EmptyPool);
    }
    proof {
        lemma_amount_of_le_sum(state.providers@, sender@);
    }
    let orai_out = lpt_amount * state.pool.orai_reserve / state.pool.total_shares;
    let usdt_out = lpt_amount * state.pool.usdt_reserve / state.pool.total_shares;
    if orai_out > state.pool.orai_reserve || usdt_out > state.pool.usdt_reserve {
        return Err(ContractError::InsufficientLiquidity);
    }
    if usdt_out == 0 || orai_out == 0 {
        return Err(ContractError::InvalidAmount);
    }
    proof {
        let p = old(state).pool;
        let s = lpt_amount as int;
        let t = p.total_shares as int;
        if s < t {
            assert(s * p.orai_reserve < t * p.orai_reserve) by (nonlinear_arith)
                requires
                    s < t,
                    p.orai_reserve >= 1,
            ;
            lemma_div_strict_bound(s * p.orai_reserve, t, p.orai_reserve as int);
            assert(s * p.usdt_reserve < t * p.usdt_reserve) by (nonlinear_arith)
                requires
                    s < t,
                    p.usdt_reserve >= 1,
            ;
            lemma_div_strict_bound(s * p.usdt_reserve, t, p.usdt_reserve as int);
        } else {
            assert(s == t);
            assert(t * p.orai_reserve / t == p.orai_reserve) by (nonlinear_arith)
                requires
                    t >= 1,
            ;
            assert(t * p.usdt_reserve / t == p.usdt_reserve) by (nonlinear_arith)
                requires
                    t >= 1,
            ;
        }
    }
    state.pool.orai_reserve = state.pool.orai_reserve - orai_out;
    state.pool.usdt_reserve = state.pool.usdt_reserve - usdt_out;
    state.pool.total_shares = state.pool.total_shares - lpt_amount;
    book_debit(&mut state.providers, sender, lpt_amount);
    let burn = TokenInstruction::Cw20BurnFrom {
        token: state.info.lpt_contract.clone(),
        owner: sender.clone(),
        amount: lpt_amount,
    };
    let pay_usdt = match transfer_usdt(&state.info, sender.clone(), usdt_out) {
        Ok(ins) => ins,
        Err(e) => { return Err(e) },
    };
    let pay_orai = match transfer_orai(sender.clone(), orai_out) {
        Ok(ins) => ins,
        Err(e) => { return Err(e) },
    };
    Ok(vec![burn, pay_orai, pay_usdt])
}

/// The part of a declared native-asset contribution that a seeded pool
/// accepts: when the contribution is richer in the native asset than the
/// pool, it is trimmed to match the reserve ratio exactly, rounding down.
pub open spec fn add_used_orai(p: LiquidityPool, a: int, b: int) -> int {
    if a * p.usdt_reserve > b * p.orai_reserve {
        b * (p.orai_reserve as int) / (p.usdt_reserve as int)
    } else {
        a
    }
}

/// The part of a declared external-token contribution that a seeded pool
/// accepts; the counterpart of [`add_used_orai`].
pub open spec fn add_used_usdt(p: LiquidityPool, a: int, b: int) -> int {
    if a * p.usdt_reserve < b * p.orai_reserve {
        a * (p.usdt_reserve as int) / (p.orai_reserve as int)
    } else {
        b
    }
}

/// The shares a seeded pool mints for a contribution: proportional to the
/// accepted native-asset amount's part of the native reserve, rounding down.
pub open spec fn add_minted(p: LiquidityPool, a: int, b: int) -> int {
    add_used_orai(p, a, b) * (p.total_shares as int) / (p.orai_reserve as int)
}

/// The arithmetic room adding liquidity needs from the machine: whenever the
/// validations would pass, the grown reserves, the ratio cross-products, the
/// share product and the grown share total must fit in 128 bits.
pub open spec fn add_requires(
    pre: AmmState,
    funds_orai: u128,
    usdt_allowance: u128,
    a: u128,
    b: u128,
) -> bool {
    let p = pre.pool;
    (a >= 1 && b >= 1 && funds_orai >= a && usdt_allowance >= b) ==> {
        &&& p.orai_reserve + a <= u128::MAX
        &&& p.usdt_reserve + b <= u128::MAX
        &&& p.total_shares == 0 ==> a * b <= u128::MAX
        &&& p.total_shares >= 1 ==> {
            &&& a * p.usdt_reserve <= u128::MAX
            &&& b * p.orai_reserve <= u128::MAX
            &&& a * p.total_shares <= u128::MAX
            &&& p.total_shares + (a as int) * (p.total_shares as int) / (p.orai_reserve as int)
                <= u128::MAX
        }
    }
}

/// Everything adding liquidity does, for every input. The validations are
/// tried in order and the first failure names the error and leaves the state
/// as it was. An empty pool accepts the full declared amounts and mints the
/// integer square root of their product; a seeded pool trims the declared
/// amounts to its reserve ratio, mints proportionally, and returns any
/// trimmed-off native amount to the sender. The observed allowance is cached
/// on success.
pub open spec fn add_post(
    pre: AmmState,
    post: AmmState,
    sender: String,
    self_addr: String,
    funds_orai: u128,
    usdt_allowance: u128,
    a: u128,
    b: u128,
    r: Result<Vec<TokenInstruction>, ContractError>,
) -> bool {
    let p = pre.pool;
    if a == 0 || b == 0 {
        post == pre && r == Err::<Vec<TokenInstruction>, ContractError>(
            ContractError::InvalidAmount,
        )
    } else if funds_orai < a {
        post == pre && r == Err::<Vec<TokenInstruction>, ContractError>(
            ContractError::InsufficientFunds,
        )
    } else if usdt_allowance < b {
        post == pre && r == Err::<Vec<TokenInstruction>, ContractError>(
            ContractError::InsufficientAllowance,
        )
    } else if p.orai_reserve == 0 || p.usdt_reserve == 0 {
        let m = isqrt((a as int) * (b as int));
        &&& post.pool.orai_reserve == p.orai_reserve + a
        &&& post.pool.usdt_reserve == p.usdt_reserve + b
        &&& post.pool.total_shares == p.total_shares + m
        &&& amount_of(post.providers@, sender@) == amount_of(pre.providers@, sender@) + m
        &&& forall|k: Seq<char>|
            k != sender@ ==> amount_of(post.providers@, k) == amount_of(pre.providers@, k)
        &&& amount_of(post.usdt_allowances@, sender@) == usdt_allowance
        &&& forall|k: Seq<char>|
            k != sender@ ==> amount_of(post.usdt_allowances@, k) == amount_of(
                pre.usdt_allowances@,
                k,
            )
        &&& post.info == pre.info
        &&& r matches Ok(ins) && ins@ =~= seq![
            TokenInstruction::Cw20Mint {
                token: pre.info.lpt_contract,
                recipient: sender,
                amount: m as u128,
            },
            TokenInstruction::Cw20TransferFrom {
                token: pre.info.usdt_contract,
                owner: sender,
                recipient: self_addr,
                amount: b,
            },
        ]
    } else {
        let ua = add_used_orai(p, a as int, b as int);
        let ub = add_used_usdt(p, a as int, b as int);
        let m = add_minted(p, a as int, b as int);
        &&& post.pool.orai_reserve == p.orai_reserve + ua
        &&& post.pool.usdt_reserve == p.usdt_reserve + ub
        &&& post.pool.total_shares == p.total_shares + m
        &&& amount_of(post.providers@, sender@) == amount_of(pre.providers@, sender@) + m
        &&& forall|k: Seq<char>|
            k != sender@ ==> amount_of(post.providers@, k) == amount_of(pre.providers@, k)
        &&& amount_of(post.usdt_allowances@, sender@) == usdt_allowance
        &&& forall|k: Seq<char>|
            k != sender@ ==> amount_of(post.usdt_allowances@, k) == amount_of(
                pre.usdt_allowances@,
                k,
            )
        &&& post.info == pre.info
        &&& r matches Ok(ins) && (if a > ua {
            ins@ =~= seq![
                TokenInstruction::Cw20TransferFrom {
                    token: pre.info.usdt_contract,
                    owner: sender,
                    recipient: self_addr,
                    amount: ub as u128,
                },
                TokenInstruction::Cw20Mint {
                    token: pre.info.lpt_contract,
                    recipient: sender,
                    amount: m as u128,
                },
                TokenInstruction::NativeTransfer {
                    recipient: sender,
                    amount: (a - ua) as u128,
                },
            ]
        } else {
            ins@ =~= seq![
                TokenInstruction::Cw20TransferFrom {
                    token: pre.info.usdt_contract,
                    owner: sender,
                    recipient: self_addr,
                    amount: ub as u128,
                },
                TokenInstruction::Cw20Mint {
                    token: pre.info.lpt_contract,
                    recipient: sender,
                    amount: m as u128,
                },
            ]
        })
    }
}

/// Contribute `orai_amount` of the native asset (attached to the call) and
/// `usdt_amount` of the external token (pulled through the granted
/// allowance) in exchange for newly minted shares.
pub fn add_liquidity(
    state: &mut AmmState,
    sender: &String,
    self_addr: &String,
    funds_orai: u128,
    usdt_allowance: u128,
    orai_amount: u128,
    usdt_amount: u128,
) -> (r: Result<Vec<TokenInstruction>, ContractError>)
    requires
        state_wf(*old(state)),
        add_requires(*old(state), funds_orai, usdt_allowance, orai_amount, usdt_amount),
    ensures
        state_wf(*final(state)),
        add_post(
            *old(state),
            *final(state),
            *sender,
            *self_addr,
            funds_orai,
            usdt_allowance,
            orai_amount,
            usdt_amount,
            r,
        ),
{
    if orai_amount == 0 || usdt_amount == 0 {
        return Err(ContractError::InvalidAmount);
    }
    if funds_orai < orai_amount {
        return Err(ContractError::InsufficientFunds);
    }
    if usdt_allowance < usdt_amount {
        return Err(ContractError::InsufficientAllowance);
    }
    proof {
        lemma_amount_of_le_sum(state.providers@, sender@);
    }
    if state.pool.orai_reserve == 0 || state.pool.usdt_reserve == 0 {
        let minted = crate::math::sqrt(orai_amount * usdt_amount);
        proof {
            assert((orai_amount as int) * (usdt_amount as int) >= 1) by (nonlinear_arith)
                requires
                    orai_amount >= 1,
                    usdt_amount >= 1,
            ;
            lemma_isqrt_pos((orai_amount as int) * (usdt_amount as int), minted as int);
        }
        state.pool.orai_reserve = state.pool.orai_reserve + orai_amount;
        state.pool.usdt_reserve = state.pool.usdt_reserve + usdt_amount;
        state.pool.total_shares = state.pool.total_shares + minted;
        book_credit(&mut state.providers, sender, minted);
        book_set(&mut state.usdt_allowances, sender, usdt_allowance);
        let mint_ins = TokenInstruction::Cw20Mint {
            token: state.info.lpt_contract.clone(),
            recipient: sender.clone(),
            amount: minted,
        };
        let pull_ins = TokenInstruction::Cw20TransferFrom {
            token: state.info.usdt_contract.clone(),
            owner: sender.clone(),
            recipient: self_addr.clone(),
            amount: usdt_amount,
        };
        return Ok(vec![mint_ins, pull_ins]);
    }
    let ghost p = state.pool;
    let lhs = orai_amount * state.pool.usdt_reserve;
    let rhs = usdt_amount * state.pool.orai_reserve;
    let (orai_used, usdt_used): (u128, u128) = if lhs > rhs {
        proof {
            lemma_div_strict_bound(rhs as int, p.usdt_reserve as int, orai_amount as int);
        }
        (rhs / state.pool.usdt_reserve, usdt_amount)
    } else if lhs < rhs {
        proof {
            lemma_div_strict_bound(lhs as int, p.orai_reserve as int, usdt_amount as int);
        }
        (orai_amount, lhs / state.pool.orai_reserve)
    } else {
        (orai_amount, usdt_amount)
    };
    proof {
        assert((orai_used as int) * (p.total_shares as int) <= (orai_amount as int) * (
        p.total_shares as int)) by (nonlinear_arith)
            requires
                orai_used <= orai_amount,
                p.total_shares >= 0,
        ;
    }
    let m_num = orai_used * state.pool.total_shares;
    let minted = m_num / state.pool.orai_reserve;
    proof {
        lemma_div_le_mono(
            (orai_used as int) * (p.total_shares as int),
            (orai_amount as int) * (p.total_shares as int),
            p.orai_reserve as int,
        );
    }
    state.pool.orai_reserve = state.pool.orai_reserve + orai_used;
    state.pool.usdt_reserve = state.pool.usdt_reserve + usdt_used;
    state.pool.total_shares = state.pool.total_shares + minted;
    book_credit(&mut state.providers, sender, minted);
    book_set(&mut state.usdt_allowances, sender, usdt_allowance);
    let pull_ins = TokenInstruction::Cw20TransferFrom {
        token: state.info.usdt_contract.clone(),
        owner: sender.clone(),
        recipient: self_addr.clone(),
        amount: usdt_used,
    };
    let mint_ins = TokenInstruction::Cw20Mint {
        token: state.info.lpt_contract.clone(),
        recipient: sender.clone(),
        amount: minted,
    };
    let mut instructions = vec![pull_ins, mint_ins];
    let unused_orai = orai_amount - orai_used;
    if unused_orai > 0 {
        let back = match transfer_orai(sender.clone(), unused_orai) {
            Ok(ins) => ins,
            Err(e) => { return Err(e) },
        };
        instructions.push(back);
    }
    Ok(instructions)
}

/// Dispatch a mutating request to the operation it names. The caller
/// supplies the attached native funds and the two allowances it observed for
/// the sender; each operation reads only the ones it is specified over.
pub fn execute(
    state: &mut AmmState,
    sender: &String,
    self_addr: &String,
    funds_orai: u128,
    usdt_allowance: u128,
    lpt_allowance: u128,
    msg: ExecuteMsg,
) -> (r: Result<Vec<TokenInstruction>, ContractError>)
    requires
        state_wf(*old(state)),
        (match msg {
            ExecuteMsg::AddLiquidity { orai_amount, usdt_amount } => add_requires(
                *old(state),
                funds_orai,
                usdt_allowance,
                orai_amount,
                usdt_amount,
            ),
            ExecuteMsg::RemoveLiquidity { lpt_amount } => remove_requires(
                *old(state),
                sender@,
                lpt_allowance,
                lpt_amount,
            ),
            ExecuteMsg::Swap { denom, amount } => swap_requires(
                *old(state),
                funds_orai,
                usdt_allowance,
                denom@,
                amount,
            ),
        }),
    ensures
        state_wf(*final(state)),
        (match msg {
            ExecuteMsg::AddLiquidity { orai_amount, usdt_amount } => add_post(
                *old(state),
                *final(state),
                *sender,
                *self_addr,
                funds_orai,
                usdt_allowance,
                orai_amount,
                usdt_amount,
                r,
            ),
            ExecuteMsg::RemoveLiquidity { lpt_amount } => remove_post(
                *old(state),
                *final(state),
                *sender,
                lpt_allowance,
                lpt_amount,
                r,
            ),
            ExecuteMsg::Swap { denom, amount } => swap_post(
                *old(state),
                *final(state),
                *sender,
                *self_addr,
                funds_orai,
                usdt_allowance,
                denom@,
                amount,
                r,
            ),
        }),
{
    match msg {
        ExecuteMsg::AddLiquidity { orai_amount, usdt_amount } => add_liquidity(
            state,
            sender,
            self_addr,
            funds_orai,
            usdt_allowance,
            orai_amount,
            usdt_amount,
        ),
        ExecuteMsg::RemoveLiquidity { lpt_amount } => remove_liquidity(
            state,
            sender,
            lpt_allowance,
            lpt_amount,
        ),
        ExecuteMsg::Swap { denom, amount } => swap(
            state,
            sender,
            self_addr,
            funds_orai,
            usdt_allowance,
            &denom,
            amount,
        ),
    }
}

/// The pool projection a state determines; [`query_liquidity_pool_info`]
/// returns exactly this value.
pub open spec fn spec_pool_info(s: AmmState) -> PoolInfoResponse {
    PoolInfoResponse {
        orai_reserve: s.pool.orai_reserve,
        usdt_reserve: s.pool.usdt_reserve,
        total_shares: s.pool.total_shares,
    }
}

/// Report the deployment configuration.
pub fn query_contract_info(state: &AmmState) -> (r: ContractInfoResponse)
    ensures
        r.owner == state.info.owner,
        r.lpt_contract == state.info.lpt_contract,
        r.usdt_contract == state.info.usdt_contract,
{
    ContractInfoResponse {
        owner: state.info.owner.clone(),
        lpt_contract: state.info.lpt_contract.clone(),
        usdt_contract: state.info.usdt_contract.clone(),
    }
}

/// Report the pool's reserves and share total.
pub fn query_liquidity_pool_info(state: &AmmState) -> (r: PoolInfoResponse)
    ensures
        r == spec_pool_info(*state),
{
    PoolInfoResponse {
        orai_reserve: state.pool.orai_reserve,
        usdt_reserve: state.pool.usdt_reserve,
        total_shares: state.pool.total_shares,
    }
}

/// Report an account's recorded share balance, zero when it never held any.
pub fn query_lpt_balance(state: &AmmState, user: &String) -> (r: LptBalanceResponse)
    ensures
        r.balance == amount_of(state.providers@, user@),
{
    LptBalanceResponse { balance: book_lookup(&state.providers, user) }
}

/// Report an account's cached external-token allowance, or the sentinel when
/// no allowance was ever observed for it.
pub fn query_usdt_allowance_amount(state: &AmmState, user: &String) -> (r: USDTAllowanceResponse)
    ensures
        book_contains(state.usdt_allowances@, user@) ==> r.usdt_amount == amount_of(
            state.usdt_allowances@,
            user@,
        ),
        !book_contains(state.usdt_allowances@, user@) ==> r.usdt_amount
            == UNCACHED_ALLOWANCE_SENTINEL,
{
    match book_get(&state.usdt_allowances, user) {
        Some(v) => USDTAllowanceResponse { usdt_amount: v },
        None => USDTAllowanceResponse { usdt_amount: UNCACHED_ALLOWANCE_SENTINEL },
    }
}

/// Dispatch a read-only request to the query it names.
pub fn query(state: &AmmState, msg: QueryMsg) -> (r: QueryAnswer)
    ensures
        (match msg {
            QueryMsg::QueryContractInfo {} => (r matches QueryAnswer::ContractInfo(c)
                && c.owner == state.info.owner
                && c.lpt_contract == state.info.lpt_contract
                && c.usdt_contract == state.info.usdt_contract),
            QueryMsg::QueryPoolInfo {} => r == QueryAnswer::PoolInfo(spec_pool_info(*state)),
            QueryMsg::QueryLptBalance { user } => (r matches QueryAnswer::LptBalance(x)
                && x.balance == amount_of(state.providers@, user@)),
            QueryMsg::QueryUSDTAllowance { user } => (r matches QueryAnswer::UsdtAllowance(x)
                && (book_contains(state.usdt_allowances@, user@) ==> x.usdt_amount == amount_of(
                state.usdt_allowances@,
                user@,
            )) && (!book_contains(state.usdt_allowances@, user@) ==> x.usdt_amount
                == UNCACHED_ALLOWANCE_SENTINEL)),
        }),
{
    match msg {
        QueryMsg::QueryContractInfo {} => QueryAnswer::ContractInfo(query_contract_info(state)),
        QueryMsg::QueryPoolInfo {} => QueryAnswer::PoolInfo(query_liquidity_pool_info(state)),
        QueryMsg::QueryLptBalance { user } => QueryAnswer::LptBalance(
            query_lpt_balance(state, &user),
        ),
        QueryMsg::QueryUSDTAllowance { user } => QueryAnswer::UsdtAllowance(
            query_usdt_allowance_amount(state, &user),
        ),
    }
}

} // verus!
