//! The request and response surface of the pool, and the outbound
//! token-movement instructions a mutating operation returns. The host is
//! expected to decode its wire format into these plain values and to execute
//! the returned instructions in order after committing the state.

use vstd::prelude::*;

verus! {

/// Deployment parameters: the two external token contracts the pool uses.
#[derive(Clone, Debug)]
pub struct InstantiateMsg {
    pub usdt_contract: String,
    pub lpt_contract: String,
}

/// A mutating request.
#[derive(Clone, Debug)]
pub enum ExecuteMsg {
    AddLiquidity { orai_amount: u128, usdt_amount: u128 },
    RemoveLiquidity { lpt_amount: u128 },
    Swap { denom: String, amount: u128 },
}

/// A read-only request.
#[derive(Clone, Debug)]
pub enum QueryMsg {
    QueryContractInfo {},
    QueryPoolInfo {},
    QueryLptBalance { user: String },
    QueryUSDTAllowance { user: String },
}

/// The pool's reserves and share total, as reported to a caller.
#[derive(Clone, Copy, Debug, PartialEq, Eq, Structural)]
pub struct PoolInfoResponse {
    pub orai_reserve: u128,
    pub usdt_reserve: u128,
    pub total_shares: u128,
}

/// One account's recorded share balance.
#[derive(Clone, Copy, Debug, PartialEq, Eq, Structural)]
pub struct LptBalanceResponse {
    pub balance: u128,
}

/// The deployment configuration, as reported to a caller.
#[derive(Clone, Debug, PartialEq, Eq)]
pub struct ContractInfoResponse {
    pub owner: String,
    pub lpt_contract: String,
    pub usdt_contract: String,
}

/// One account's cached external-token allowance.
#[derive(Clone, Copy, Debug, PartialEq, Eq, Structural)]
pub struct USDTAllowanceResponse {
    pub usdt_amount: u128,
}

/// The answer to a [`QueryMsg`], before the host encodes it.
#[derive(Clone, Debug, PartialEq, Eq)]
pub enum QueryAnswer {
    ContractInfo(ContractInfoResponse),
    PoolInfo(PoolInfoResponse),
    LptBalance(LptBalanceResponse),
    UsdtAllowance(USDTAllowanceResponse),
}

/// An outbound token movement that the host must perform after committing
/// the returned state. Instructions are ordered; the order is part of each
/// operation's contract.
#[derive(Clone, Debug, PartialEq, Eq)]
pub enum TokenInstruction {
    /// Pay out `amount` of the native asset held by the pool.
    NativeTransfer { recipient: String, amount: u128 },
    /// Move `amount` of the external token `token` from the pool to `recipient`.
    Cw20Transfer { token: String, recipient: String, amount: u128 },
    /// Pull `amount` of `token` from `owner` into `recipient` using the
    /// allowance `owner` granted.
    Cw20TransferFrom { token: String, owner: String, recipient: String, amount: u128 },
    /// Mint `amount` of the share token `token` to `recipient`.
    Cw20Mint { token: String, recipient: String, amount: u128 },
    /// Burn `amount` of the share token `token` from `owner` using the
    /// allowance `owner` granted.
    Cw20BurnFrom { token: String, owner: String, amount: u128 },
}

} // verus!
