//! The records of the staking program.
use crate::address::Address;
use vstd::prelude::*;

verus! {

/// Program-wide settings, one record per deployed program.
#[derive(Clone, Copy, Debug)]
pub struct ConfigData {
    /// Seconds it takes for stake to unbond.
    pub unbonding_time: u64,
    /// Mint of the token that can be staked.
    pub staking_token: Address,
}

/// Whether a pool still accepts new bonds.
#[derive(Clone, Copy, Debug, PartialEq, Eq, Structural)]
pub enum StakePoolState {
    ACTIVE,
    DEACTIVATED,
}

impl Default for StakePoolState {
    fn default() -> (r: StakePoolState)
        ensures
            r == StakePoolState::ACTIVE,
    {
        StakePoolState::ACTIVE
    }
}

/// A stake pool: its metadata and the shares outstanding in its active
/// (bonded) and deactivating (unbonding) sub-pools.
#[derive(Clone, Debug)]
pub struct StakePoolData {
    pub operator: Address,
    pub name: String,
    pub description: String,
    pub icon: String,
    /// Operator's cut of each reward distribution, in basis points.
    pub commission: u16,
    /// Token account that receives the operator's cut.
    pub reward_account: Address,
    /// Shares outstanding in the active sub-pool.
    pub total_shares: u128,
    /// Shares outstanding in the deactivating sub-pool.
    pub total_shares_unbonding: u128,
    pub state: StakePoolState,
}

/// The payload of an account that is leaving a pool.
#[derive(Clone, Copy, Debug)]
pub struct UnbondingData {
    /// The pool the account is leaving.
    pub pool: Address,
    /// Time at which the unbonding may be completed.
    pub unbonding_time: u64,
    /// Shares held in the pool's deactivating sub-pool.
    pub unbonding_shares: u128,
}

/// Where a stake account stands in its lifecycle.
#[derive(Clone, Copy, Debug)]
pub enum StakeAccountState {
    BONDED(Address),
    UNBONDING(UnbondingData),
    UNBONDED,
}

impl Default for StakeAccountState {
    fn default() -> (r: StakeAccountState)
        ensures
            r is UNBONDED,
    {
        StakeAccountState::UNBONDED
    }
}

/// Plain tokens, or tokens released on a vesting schedule.
#[derive(Clone, Copy, Debug, PartialEq, Eq, Structural)]
pub enum StakeAccountType {
    TOKEN,
    VESTING(VestingData),
}

impl Default for StakeAccountType {
    fn default() -> (r: StakeAccountType)
        ensures
            r == StakeAccountType::TOKEN,
    {
        StakeAccountType::TOKEN
    }
}

/// The vesting schedule of a stake account.
#[derive(Clone, Copy, Debug, PartialEq, Eq, Structural)]
pub struct VestingData {
    pub initial_balance: u64,
    pub cliff_date: u64,
    pub vesting_duration: u64,
}

/// A depositor's stake account.
#[derive(Clone, Copy, Debug)]
pub struct StakeAccountData {
    pub owner: Address,
    /// Token account that holds the depositor's tokens while unbonded.
    pub custody_account: Address,
    pub account_type: StakeAccountType,
    pub account_state: StakeAccountState,
    /// Shares of the active sub-pool, meaningful while bonded.
    pub shares: u128,
}

impl StakeAccountData {
    /// An account holds active shares exactly while it is bonded, and an
    /// unbonding account holds deactivating shares.
    pub open spec fn well_formed(self) -> bool {
        &&& (self.account_state is BONDED <==> self.shares > 0)
        &&& (self.account_state matches StakeAccountState::UNBONDING(d) ==> d.unbonding_shares > 0)
    }

    /// Shares this account holds in the active sub-pool of `pool`.
    pub open spec fn bonded_shares_in(self, pool: Address) -> int {
        match self.account_state {
            StakeAccountState::BONDED(p) => if p.key() == pool.key() {
                self.shares as int
            } else {
                0
            },
            _ => 0,
        }
    }

    /// Shares this account holds in the deactivating sub-pool of `pool`.
    pub open spec fn unbonding_shares_in(self, pool: Address) -> int {
        match self.account_state {
            StakeAccountState::UNBONDING(d) => if d.pool.key() == pool.key() {
                d.unbonding_shares as int
            } else {
                0
            },
            _ => 0,
        }
    }
}

} // verus!

verus! {

impl StakePoolData {
    /// The pool with its two share totals replaced.
    pub open spec fn with_totals(self, total_shares: int, total_shares_unbonding: int) -> StakePoolData {
        StakePoolData {
            total_shares: total_shares as u128,
            total_shares_unbonding: total_shares_unbonding as u128,
            ..self
        }
    }
}

impl StakeAccountData {
    /// The account moved to `state`, holding `shares` active shares.
    pub open spec fn entered(self, state: StakeAccountState, shares: int) -> StakeAccountData {
        StakeAccountData { account_state: state, shares: shares as u128, ..self }
    }
}

} // verus!
