//! The pool's state: reserves and outstanding shares, the immutable
//! deployment configuration, the per-account share book and the advisory
//! allowance cache, together with the well-formedness invariant that every
//! operation preserves.

use vstd::prelude::*;
use crate::book::Entry;
use crate::book::keys_unique;
use crate::book::sum_amounts;

verus! {

/// The liquidity pool: reserves of the two assets and the total of all
/// outstanding ownership shares.
#[derive(Clone, Copy, Debug, PartialEq, Eq, Structural)]
pub struct LiquidityPool {
    /// Balance of the native asset held by the pool.
    pub orai_reserve: u128,
    /// Balance of the external token held by the pool.
    pub usdt_reserve: u128,
    /// Sum of all outstanding ownership shares.
    pub total_shares: u128,
}

/// Immutable deployment configuration: the deploying account and the two
/// external token contracts the pool depends on.
#[derive(Clone, Debug)]
pub struct ContractInfo {
    pub owner: String,
    pub usdt_contract: String,
    pub lpt_contract: String,
}

/// The whole state owned by the pool contract. A host loads it before an
/// operation and commits it back atomically on success.
pub struct AmmState {
    /// Deployment configuration, immutable after [`crate::contract::instantiate`].
    pub info: ContractInfo,
    /// The pool's reserves and share total.
    pub pool: LiquidityPool,
    /// Each account's owned shares; its total always equals `pool.total_shares`.
    pub providers: Vec<Entry>,
    /// Last-observed allowance granted by each account for the external
    /// token; advisory only, never read by the operations themselves.
    pub usdt_allowances: Vec<Entry>,
}

/// The pool is either completely empty or fully seeded: a zero on any of the
/// three fields forces zeros on the other two.
pub open spec fn pool_wf(p: LiquidityPool) -> bool {
    &&& p.orai_reserve == 0 <==> p.total_shares == 0
    &&& p.usdt_reserve == 0 <==> p.total_shares == 0
}

/// Well-formedness of the whole state: the pool is empty or fully seeded,
/// both books have unique addresses, and the outstanding share total is
/// exactly the sum of all recorded share balances.
pub open spec fn state_wf(s: AmmState) -> bool {
    &&& pool_wf(s.pool)
    &&& keys_unique(s.providers@)
    &&& keys_unique(s.usdt_allowances@)
    &&& sum_amounts(s.providers@) == s.pool.total_shares
}

} // verus!
