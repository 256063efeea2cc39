//! End-to-end tests of the pool: the main flows, the validation
//! failures, and the bookkeeping around shares and allowances.

use amm_pool::contract::add_liquidity;
use amm_pool::contract::calculate_swap_amount;
use amm_pool::contract::execute;
use amm_pool::contract::instantiate;
use amm_pool::contract::query;
use amm_pool::contract::query_contract_info;
use amm_pool::contract::query_liquidity_pool_info;
use amm_pool::contract::query_lpt_balance;
use amm_pool::contract::query_usdt_allowance_amount;
use amm_pool::contract::remove_liquidity;
use amm_pool::contract::swap;
use amm_pool::contract::transfer_orai;
use amm_pool::contract::transfer_token;
use amm_pool::contract::transfer_usdt;
use amm_pool::contract::UNCACHED_ALLOWANCE_SENTINEL;
use amm_pool::error::ContractError;
use amm_pool::math::quote;
use amm_pool::math::sqrt;
use amm_pool::msg::ExecuteMsg;
use amm_pool::msg::InstantiateMsg;
use amm_pool::msg::QueryAnswer;
use amm_pool::msg::QueryMsg;
use amm_pool::msg::TokenInstruction;
use amm_pool::state::AmmState;

fn fresh_state() -> AmmState {
    instantiate(
        "deployer".to_string(),
        InstantiateMsg {
            usdt_contract: "usdt-contract".to_string(),
            lpt_contract: "lpt-contract".to_string(),
        },
    )
}

fn seeded_state() -> AmmState {
    let mut state = fresh_state();
    let r = add_liquidity(
        &mut state,
        &"alice".to_string(),
        &"pool".to_string(),
        100,
        300,
        100,
        300,
    );
    assert!(r.is_ok());
    state
}

#[test]
fn instantiate_records_config_and_empty_pool() {
    let state = fresh_state();
    let info = query_contract_info(&state);
    assert_eq!(info.owner, "deployer");
    assert_eq!(info.usdt_contract, "usdt-contract");
    assert_eq!(info.lpt_contract, "lpt-contract");
    let pool = query_liquidity_pool_info(&state);
    assert_eq!(pool.orai_reserve, 0);
    assert_eq!(pool.usdt_reserve, 0);
    assert_eq!(pool.total_shares, 0);
}

#[test]
fn seed_empty_pool_mints_geometric_mean() {
    let mut state = fresh_state();
    let r = add_liquidity(
        &mut state,
        &"alice".to_string(),
        &"pool".to_string(),
        100,
        300,
        100,
        300,
    )
    .unwrap();
    let pool = query_liquidity_pool_info(&state);
    assert_eq!(pool.orai_reserve, 100);
    assert_eq!(pool.usdt_reserve, 300);
    assert_eq!(pool.total_shares, 173);
    assert_eq!(
        r,
        vec![
            TokenInstruction::Cw20Mint {
                token: "lpt-contract".to_string(),
                recipient: "alice".to_string(),
                amount: 173,
            },
            TokenInstruction::Cw20TransferFrom {
                token: "usdt-contract".to_string(),
                owner: "alice".to_string(),
                recipient: "pool".to_string(),
                amount: 300,
            },
        ]
    );
    assert_eq!(query_lpt_balance(&state, &"alice".to_string()).balance, 173);
}

#[test]
fn swap_native_for_token() {
    let mut state = seeded_state();
    let r = swap(
        &mut state,
        &"bob".to_string(),
        &"pool".to_string(),
        10,
        0,
        &"orai".to_string(),
        10,
    )
    .unwrap();
    let pool = query_liquidity_pool_info(&state);
    assert_eq!(pool.orai_reserve, 110);
    assert_eq!(pool.usdt_reserve, 273);
    assert_eq!(pool.total_shares, 173);
    assert_eq!(
        r,
        vec![TokenInstruction::Cw20Transfer {
            token: "usdt-contract".to_string(),
            recipient: "bob".to_string(),
            amount: 27,
        }]
    );
}

#[test]
fn swap_token_for_native() {
    let mut state = seeded_state();
    // 100 USDT in: floor(100 * 997/1000 * 100 / (300 + 100 * 997/1000)) = 24.
    let r = swap(
        &mut state,
        &"bob".to_string(),
        &"pool".to_string(),
        0,
        100,
        &"usdt".to_string(),
        100,
    )
    .unwrap();
    let pool = query_liquidity_pool_info(&state);
    assert_eq!(pool.usdt_reserve, 400);
    assert_eq!(pool.orai_reserve, 76);
    assert_eq!(
        r,
        vec![
            TokenInstruction::Cw20TransferFrom {
                token: "usdt-contract".to_string(),
                owner: "bob".to_string(),
                recipient: "pool".to_string(),
                amount: 100,
            },
            TokenInstruction::NativeTransfer { recipient: "bob".to_string(), amount: 24 },
        ]
    );
}

#[test]
fn remove_entire_pool_returns_both_reserves() {
    let mut state = seeded_state();
    let r = remove_liquidity(&mut state, &"alice".to_string(), 173, 173).unwrap();
    let pool = query_liquidity_pool_info(&state);
    assert_eq!(pool.orai_reserve, 0);
    assert_eq!(pool.usdt_reserve, 0);
    assert_eq!(pool.total_shares, 0);
    assert_eq!(query_lpt_balance(&state, &"alice".to_string()).balance, 0);
    assert_eq!(
        r,
        vec![
            TokenInstruction::Cw20BurnFrom {
                token: "lpt-contract".to_string(),
                owner: "alice".to_string(),
                amount: 173,
            },
            TokenInstruction::NativeTransfer { recipient: "alice".to_string(), amount: 100 },
            TokenInstruction::Cw20Transfer {
                token: "usdt-contract".to_string(),
                recipient: "alice".to_string(),
                amount: 300,
            },
        ]
    );
}

#[test]
fn add_zero_amount_rejected_state_unchanged() {
    let mut state = seeded_state();
    let before = query_liquidity_pool_info(&state);
    let r = add_liquidity(
        &mut state,
        &"alice".to_string(),
        &"pool".to_string(),
        100,
        300,
        0,
        300,
    );
    assert_eq!(r.unwrap_err(), ContractError::InvalidAmount);
    assert_eq!(query_liquidity_pool_info(&state), before);
}

#[test]
fn swap_unknown_denom_rejected() {
    let mut state = seeded_state();
    let before = query_liquidity_pool_info(&state);
    let r = swap(
        &mut state,
        &"bob".to_string(),
        &"pool".to_string(),
        10,
        10,
        &"doge".to_string(),
        10,
    );
    assert_eq!(r.unwrap_err(), ContractError::UnsupportedAsset);
    assert_eq!(query_liquidity_pool_info(&state), before);
}

#[test]
fn pool_query_is_idempotent() {
    let state = seeded_state();
    let first = query_liquidity_pool_info(&state);
    let second = query_liquidity_pool_info(&state);
    assert_eq!(first, second);
    let third = query(&state, QueryMsg::QueryPoolInfo {});
    let fourth = query(&state, QueryMsg::QueryPoolInfo {});
    assert_eq!(third, fourth);
}

#[test]
fn add_to_seeded_pool_trims_excess_token() {
    let mut state = seeded_state();
    // 50:300 is poorer in the native asset than 100:300, so the token side is
    // trimmed to 50 * 300 / 100 = 150 and 50 * 173 / 100 = 86 shares are minted.
    let r = add_liquidity(
        &mut state,
        &"bob".to_string(),
        &"pool".to_string(),
        50,
        300,
        50,
        300,
    )
    .unwrap();
    let pool = query_liquidity_pool_info(&state);
    assert_eq!(pool.orai_reserve, 150);
    assert_eq!(pool.usdt_reserve, 450);
    assert_eq!(pool.total_shares, 259);
    assert_eq!(
        r,
        vec![
            TokenInstruction::Cw20TransferFrom {
                token: "usdt-contract".to_string(),
                owner: "bob".to_string(),
                recipient: "pool".to_string(),
                amount: 150,
            },
            TokenInstruction::Cw20Mint {
                token: "lpt-contract".to_string(),
                recipient: "bob".to_string(),
                amount: 86,
            },
        ]
    );
    assert_eq!(query_lpt_balance(&state, &"bob".to_string()).balance, 86);
}

#[test]
fn add_to_seeded_pool_returns_excess_native() {
    let mut state = seeded_state();
    // 100:150 is richer in the native asset than 100:300: only 150 * 100 / 300
    // = 50 native units are used and the other 50 are sent back.
    let r = add_liquidity(
        &mut state,
        &"bob".to_string(),
        &"pool".to_string(),
        100,
        150,
        100,
        150,
    )
    .unwrap();
    let pool = query_liquidity_pool_info(&state);
    assert_eq!(pool.orai_reserve, 150);
    assert_eq!(pool.usdt_reserve, 450);
    assert_eq!(pool.total_shares, 259);
    assert_eq!(
        r,
        vec![
            TokenInstruction::Cw20TransferFrom {
                token: "usdt-contract".to_string(),
                owner: "bob".to_string(),
                recipient: "pool".to_string(),
                amount: 150,
            },
            TokenInstruction::Cw20Mint {
                token: "lpt-contract".to_string(),
                recipient: "bob".to_string(),
                amount: 86,
            },
            TokenInstruction::NativeTransfer { recipient: "bob".to_string(), amount: 50 },
        ]
    );
}

#[test]
fn add_then_remove_never_pays_back_more() {
    let mut state = seeded_state();
    add_liquidity(
        &mut state,
        &"bob".to_string(),
        &"pool".to_string(),
        50,
        300,
        50,
        300,
    )
    .unwrap();
    // Redeem the 86 freshly minted shares: the pay-outs round down to
    // 86 * 150 / 259 = 49 <= 50 and 86 * 450 / 259 = 149 <= 150.
    let r = remove_liquidity(&mut state, &"bob".to_string(), 86, 86).unwrap();
    assert_eq!(
        r,
        vec![
            TokenInstruction::Cw20BurnFrom {
                token: "lpt-contract".to_string(),
                owner: "bob".to_string(),
                amount: 86,
            },
            TokenInstruction::NativeTransfer { recipient: "bob".to_string(), amount: 49 },
            TokenInstruction::Cw20Transfer {
                token: "usdt-contract".to_string(),
                recipient: "bob".to_string(),
                amount: 149,
            },
        ]
    );
}

#[test]
fn conservation_across_two_providers() {
    let mut state = seeded_state();
    add_liquidity(
        &mut state,
        &"bob".to_string(),
        &"pool".to_string(),
        50,
        300,
        50,
        300,
    )
    .unwrap();
    let alice = query_lpt_balance(&state, &"alice".to_string()).balance;
    let bob = query_lpt_balance(&state, &"bob".to_string()).balance;
    let pool = query_liquidity_pool_info(&state);
    assert_eq!(alice + bob, pool.total_shares);
    remove_liquidity(&mut state, &"alice".to_string(), 173, 100).unwrap();
    let alice = query_lpt_balance(&state, &"alice".to_string()).balance;
    let bob = query_lpt_balance(&state, &"bob".to_string()).balance;
    let pool = query_liquidity_pool_info(&state);
    assert_eq!(alice + bob, pool.total_shares);
}

#[test]
fn insufficient_funds_rejected() {
    let mut state = fresh_state();
    let r = add_liquidity(
        &mut state,
        &"alice".to_string(),
        &"pool".to_string(),
        99,
        300,
        100,
        300,
    );
    assert_eq!(r.unwrap_err(), ContractError::InsufficientFunds);
    let r = swap(
        &mut seeded_state(),
        &"bob".to_string(),
        &"pool".to_string(),
        9,
        0,
        &"orai".to_string(),
        10,
    );
    assert_eq!(r.unwrap_err(), ContractError::InsufficientFunds);
}

#[test]
fn insufficient_allowance_rejected() {
    let mut state = fresh_state();
    let r = add_liquidity(
        &mut state,
        &"alice".to_string(),
        &"pool".to_string(),
        100,
        299,
        100,
        300,
    );
    assert_eq!(r.unwrap_err(), ContractError::InsufficientAllowance);
    let r = swap(
        &mut seeded_state(),
        &"bob".to_string(),
        &"pool".to_string(),
        0,
        99,
        &"usdt".to_string(),
        100,
    );
    assert_eq!(r.unwrap_err(), ContractError::InsufficientAllowance);
    let r = remove_liquidity(&mut seeded_state(), &"alice".to_string(), 172, 173);
    assert_eq!(r.unwrap_err(), ContractError::InsufficientAllowance);
}

#[test]
fn insufficient_balance_rejected() {
    let mut state = seeded_state();
    let r = remove_liquidity(&mut state, &"bob".to_string(), 10, 10);
    assert_eq!(r.unwrap_err(), ContractError::InsufficientBalance);
    let r = remove_liquidity(&mut state, &"alice".to_string(), 174, 174);
    assert_eq!(r.unwrap_err(), ContractError::InsufficientBalance);
}

#[test]
fn empty_pool_swap_rejected() {
    let mut state = fresh_state();
    let r = swap(
        &mut state,
        &"bob".to_string(),
        &"pool".to_string(),
        10,
        0,
        &"orai".to_string(),
        10,
    );
    assert_eq!(r.unwrap_err(), ContractError::EmptyPool);
}

#[test]
fn zero_amount_operations_rejected() {
    let mut state = seeded_state();
    let r = swap(
        &mut state,
        &"bob".to_string(),
        &"pool".to_string(),
        0,
        0,
        &"orai".to_string(),
        0,
    );
    assert_eq!(r.unwrap_err(), ContractError::InvalidAmount);
    let r = remove_liquidity(&mut state, &"alice".to_string(), 173, 0);
    assert_eq!(r.unwrap_err(), ContractError::InvalidAmount);
}

#[test]
fn swap_whose_output_rounds_to_zero_rejected() {
    let mut state = seeded_state();
    // 1 USDT into a 100:300 pool buys floor(997 * 100 / 3009970) = 0 native
    // units; the trade is rejected rather than paid out empty.
    let before = query_liquidity_pool_info(&state);
    let r = swap(
        &mut state,
        &"bob".to_string(),
        &"pool".to_string(),
        0,
        1,
        &"usdt".to_string(),
        1,
    );
    assert_eq!(r.unwrap_err(), ContractError::InvalidAmount);
    assert_eq!(query_liquidity_pool_info(&state), before);
}

#[test]
fn allowance_cache_records_last_observed_value() {
    let mut state = seeded_state();
    assert_eq!(
        query_usdt_allowance_amount(&state, &"alice".to_string()).usdt_amount,
        300
    );
    assert_eq!(
        query_usdt_allowance_amount(&state, &"bob".to_string()).usdt_amount,
        UNCACHED_ALLOWANCE_SENTINEL
    );
    add_liquidity(
        &mut state,
        &"alice".to_string(),
        &"pool".to_string(),
        50,
        999,
        50,
        150,
    )
    .unwrap();
    assert_eq!(
        query_usdt_allowance_amount(&state, &"alice".to_string()).usdt_amount,
        999
    );
}

#[test]
fn lpt_balance_defaults_to_zero() {
    let state = seeded_state();
    assert_eq!(query_lpt_balance(&state, &"nobody".to_string()).balance, 0);
}

#[test]
fn quote_matches_constant_product_formula() {
    assert_eq!(quote(100, 300, 10, 30), 27);
    assert_eq!(quote(100, 300, 100, 0), 150);
    assert_eq!(quote(100, 300, 100, 30), 149);
    assert_eq!(quote(300, 100, 100, 30), 24);
}

#[test]
fn fee_never_increases_output() {
    for amount in [1u128, 7, 10, 99, 100, 1000] {
        assert!(quote(100, 300, amount, 30) <= quote(100, 300, amount, 0));
    }
}

#[test]
fn calculate_swap_amount_picks_direction_by_denom() {
    let state = seeded_state();
    assert_eq!(
        calculate_swap_amount(&state.pool, &"orai".to_string(), 10).unwrap(),
        27
    );
    assert_eq!(
        calculate_swap_amount(&state.pool, &"usdt".to_string(), 100).unwrap(),
        24
    );
    assert_eq!(
        calculate_swap_amount(&state.pool, &"doge".to_string(), 10).unwrap_err(),
        ContractError::UnsupportedAsset
    );
}

#[test]
fn sqrt_rounds_down() {
    assert_eq!(sqrt(0), 0);
    assert_eq!(sqrt(1), 1);
    assert_eq!(sqrt(3), 1);
    assert_eq!(sqrt(4), 2);
    assert_eq!(sqrt(30000), 173);
    assert_eq!(sqrt(u128::MAX), u64::MAX as u128);
}

#[test]
fn transfer_helpers_build_instructions() {
    let state = fresh_state();
    assert_eq!(
        transfer_orai("bob".to_string(), 5).unwrap(),
        TokenInstruction::NativeTransfer { recipient: "bob".to_string(), amount: 5 }
    );
    assert_eq!(
        transfer_orai("bob".to_string(), 0).unwrap_err(),
        ContractError::InvalidAmount
    );
    assert_eq!(
        transfer_usdt(&state.info, "bob".to_string(), 5).unwrap(),
        TokenInstruction::Cw20Transfer {
            token: "usdt-contract".to_string(),
            recipient: "bob".to_string(),
            amount: 5,
        }
    );
    assert_eq!(
        transfer_usdt(&state.info, "bob".to_string(), 0).unwrap_err(),
        ContractError::InvalidAmount
    );
    assert_eq!(
        transfer_token(&state.info, &"usdt".to_string(), "bob".to_string(), 5).unwrap(),
        TokenInstruction::Cw20Transfer {
            token: "usdt-contract".to_string(),
            recipient: "bob".to_string(),
            amount: 5,
        }
    );
    assert_eq!(
        transfer_token(&state.info, &"orai".to_string(), "bob".to_string(), 5).unwrap(),
        TokenInstruction::NativeTransfer { recipient: "bob".to_string(), amount: 5 }
    );
    assert_eq!(
        transfer_token(&state.info, &"doge".to_string(), "bob".to_string(), 5).unwrap_err(),
        ContractError::UnsupportedAsset
    );
}

#[test]
fn execute_dispatch_routes_every_request() {
    let mut state = fresh_state();
    execute(
        &mut state,
        &"alice".to_string(),
        &"pool".to_string(),
        100,
        300,
        0,
        ExecuteMsg::AddLiquidity { orai_amount: 100, usdt_amount: 300 },
    )
    .unwrap();
    execute(
        &mut state,
        &"bob".to_string(),
        &"pool".to_string(),
        10,
        0,
        0,
        ExecuteMsg::Swap { denom: "orai".to_string(), amount: 10 },
    )
    .unwrap();
    let pool = query_liquidity_pool_info(&state);
    assert_eq!(pool.orai_reserve, 110);
    assert_eq!(pool.usdt_reserve, 273);
    execute(
        &mut state,
        &"alice".to_string(),
        &"pool".to_string(),
        0,
        0,
        173,
        ExecuteMsg::RemoveLiquidity { lpt_amount: 173 },
    )
    .unwrap();
    let pool = query_liquidity_pool_info(&state);
    assert_eq!(pool.total_shares, 0);
}

#[test]
fn query_dispatch_routes_every_request() {
    let state = seeded_state();
    match query(&state, QueryMsg::QueryContractInfo {}) {
        QueryAnswer::ContractInfo(info) => assert_eq!(info.owner, "deployer"),
        other => panic!("unexpected answer: {:?}", other),
    }
    match query(&state, QueryMsg::QueryPoolInfo {}) {
        QueryAnswer::PoolInfo(pool) => assert_eq!(pool.total_shares, 173),
        other => panic!("unexpected answer: {:?}", other),
    }
    match query(&state, QueryMsg::QueryLptBalance { user: "alice".to_string() }) {
        QueryAnswer::LptBalance(b) => assert_eq!(b.balance, 173),
        other => panic!("unexpected answer: {:?}", other),
    }
    match query(&state, QueryMsg::QueryUSDTAllowance { user: "alice".to_string() }) {
        QueryAnswer::UsdtAllowance(a) => assert_eq!(a.usdt_amount, 300),
        other => panic!("unexpected answer: {:?}", other),
    }
}
