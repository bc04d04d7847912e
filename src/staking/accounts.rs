//! The program-owned accounts of the staking program and the seeds that
//! locate them.
use crate::address::Address;
use crate::derivation::{derive_address, is_derived, labelled_address_seeds, program_address, verify_derivation};
use vstd::prelude::*;
use vstd::string::StringSliceAdditionalSpecFns;

verus! {

pub const CONFIG_SEED: &'static str = "config";

pub const STAKE_ACCOUNT_CUSTODY_SEED: &'static str = "stake_account_custody";

pub const STAKE_POOL_CUSTODY_SEED: &'static str = "stake_pool_custody";

pub const POOL_DISTRIBUTION_SEED: &'static str = "pool_distribution";

pub const POOL_DEACTIVATING_SEED: &'static str = "pool_deactivating";

pub const POOL_STAKING_SEED: &'static str = "pool_staking";

/// Seeds of a pool's sub-account: the sub-account's label, then the pool.
pub open spec fn pool_account_seeds(label: &str, stake_pool: Address) -> Seq<Seq<u8>> {
    seq![label.spec_bytes(), stake_pool.key()]
}

/// Whether `supplied` is the pool's token account that receives rewards
/// before they are split.
pub open spec fn is_distribution_account(program_id: Address, stake_pool: Address, supplied: Address) -> bool {
    is_derived(pool_account_seeds(POOL_DISTRIBUTION_SEED, stake_pool), program_id.key(), supplied.key())
}

/// Whether `supplied` is the token account of the pool's deactivating sub-pool.
pub open spec fn is_deactivating_account(program_id: Address, stake_pool: Address, supplied: Address) -> bool {
    is_derived(pool_account_seeds(POOL_DEACTIVATING_SEED, stake_pool), program_id.key(), supplied.key())
}

/// Whether `supplied` is the token account of the pool's active sub-pool.
pub open spec fn is_staking_account(program_id: Address, stake_pool: Address, supplied: Address) -> bool {
    is_derived(pool_account_seeds(POOL_STAKING_SEED, stake_pool), program_id.key(), supplied.key())
}

/// Locates the token account that collects a pool's rewards.
pub struct StakePoolDistributionTokenAccountDerivationData {
    pub stake_pool: Address,
}

impl StakePoolDistributionTokenAccountDerivationData {
    pub fn seeds(&self) -> (r: Vec<Vec<u8>>)
        ensures
            r.deep_view() == pool_account_seeds(POOL_DISTRIBUTION_SEED, self.stake_pool),
    {
        labelled_address_seeds(POOL_DISTRIBUTION_SEED, &self.stake_pool)
    }

    /// Whether `supplied` is the derived account.
    pub fn verify(&self, program_id: &Address, supplied: &Address) -> (r: bool)
        ensures
            r == is_distribution_account(*program_id, self.stake_pool, *supplied),
    {
        verify_derivation(&self.seeds(), program_id, supplied)
    }

    /// The derived account, if the search finds one.
    pub fn key(&self, program_id: &Address) -> (r: Option<Address>)
        ensures
            r matches Some(a) ==> is_distribution_account(*program_id, self.stake_pool, a),
            r is None ==> program_address(pool_account_seeds(POOL_DISTRIBUTION_SEED, self.stake_pool), program_id.key()) is None,
    {
        derive_address(&self.seeds(), program_id)
    }
}

/// Locates the token account of a pool's deactivating sub-pool.
pub struct StakePoolDeactivatingTokenAccountDerivationData {
    pub stake_pool: Address,
}

impl StakePoolDeactivatingTokenAccountDerivationData {
    pub fn seeds(&self) -> (r: Vec<Vec<u8>>)
        ensures
            r.deep_view() == pool_account_seeds(POOL_DEACTIVATING_SEED, self.stake_pool),
    {
        labelled_address_seeds(POOL_DEACTIVATING_SEED, &self.stake_pool)
    }

    /// Whether `supplied` is the derived account.
    pub fn verify(&self, program_id: &Address, supplied: &Address) -> (r: bool)
        ensures
            r == is_deactivating_account(*program_id, self.stake_pool, *supplied),
    {
        verify_derivation(&self.seeds(), program_id, supplied)
    }

    /// The derived account, if the search finds one.
    pub fn key(&self, program_id: &Address) -> (r: Option<Address>)
        ensures
            r matches Some(a) ==> is_deactivating_account(*program_id, self.stake_pool, a),
            r is None ==> program_address(pool_account_seeds(POOL_DEACTIVATING_SEED, self.stake_pool), program_id.key()) is None,
    {
        derive_address(&self.seeds(), program_id)
    }
}

/// Locates the token account of a pool's active sub-pool.
pub struct StakePoolStakingTokenAccountDerivationData {
    pub stake_pool: Address,
}

impl StakePoolStakingTokenAccountDerivationData {
    pub fn seeds(&self) -> (r: Vec<Vec<u8>>)
        ensures
            r.deep_view() == pool_account_seeds(POOL_STAKING_SEED, self.stake_pool),
    {
        labelled_address_seeds(POOL_STAKING_SEED, &self.stake_pool)
    }

    /// Whether `supplied` is the derived account.
    pub fn verify(&self, program_id: &Address, supplied: &Address) -> (r: bool)
        ensures
            r == is_staking_account(*program_id, self.stake_pool, *supplied),
    {
        verify_derivation(&self.seeds(), program_id, supplied)
    }

    /// The derived account, if the search finds one.
    pub fn key(&self, program_id: &Address) -> (r: Option<Address>)
        ensures
            r matches Some(a) ==> is_staking_account(*program_id, self.stake_pool, a),
            r is None ==> program_address(pool_account_seeds(POOL_STAKING_SEED, self.stake_pool), program_id.key()) is None,
    {
        derive_address(&self.seeds(), program_id)
    }
}

} // verus!
