//! The error taxonomy of the pool: every validation failure aborts the
//! operation before any state mutation and surfaces one of these variants.

use vstd::prelude::*;

verus! {

/// Why an operation was rejected. Each mutating operation reports the first
/// failed validation and leaves the pool state untouched.
#[derive(Clone, Copy, Debug, PartialEq, Eq, Structural)]
pub enum ContractError {
    /// A declared or computed token amount was zero where a positive amount is required.
    InvalidAmount,
    /// The native funds attached to the call are below the declared amount.
    InsufficientFunds,
    /// The allowance granted to the pool on an external token is below the required amount.
    InsufficientAllowance,
    /// The caller's recorded share balance is below the amount being redeemed.
    InsufficientBalance,
    /// The pool's reserves cannot cover the requested withdrawal or swap output.
    InsufficientLiquidity,
    /// The asset identifier is neither of the pool's two assets.
    UnsupportedAsset,
    /// The operation needs a seeded pool, but reserves and shares are zero.
    EmptyPool,
}

} // verus!
