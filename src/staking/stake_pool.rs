//! Program configuration, the stake pool's lifecycle, and the split of
//! rewards between a pool's operator and its stakers.
use crate::address::Address;
use crate::derivation::{is_derived, verify_labelled};
use crate::staking::accounts::{
    is_deactivating_account, is_distribution_account, is_staking_account, CONFIG_SEED,
    StakePoolDeactivatingTokenAccountDerivationData, StakePoolDistributionTokenAccountDerivationData,
    StakePoolStakingTokenAccountDerivationData,
};
use crate::staking::error::StakingError;
use crate::staking::types::{ConfigData, StakePoolData, StakePoolState};
use crate::token::{TokenAccount, Transfer};
use vstd::prelude::*;
use vstd::string::StringSliceAdditionalSpecFns;

verus! {

/// Basis points in a whole.
pub const BPS_DENOMINATOR: u64 = 10000;

/// The settings that initialise the program.
#[derive(Clone, Copy, Debug)]
pub struct InitializeData {
    pub unbonding_time: u64,
    pub staking_token: Address,
}

/// Whether `config_key` is the program's config record.
pub open spec fn is_config_account(program_id: Address, config_key: Address) -> bool {
    is_derived(seq![CONFIG_SEED.spec_bytes()], program_id.key(), config_key.key())
}

/// Creates the program's config record at its derived address.
pub fn initialize(program_id: &Address, config_key: &Address, data: &InitializeData) -> (r: Result<ConfigData, StakingError>)
    ensures
        match r {
            Ok(c) => is_config_account(*program_id, *config_key) && c.unbonding_time == data.unbonding_time
                && c.staking_token == data.staking_token,
            Err(e) => !is_config_account(*program_id, *config_key) && e == StakingError::InvalidDerivation,
        },
{
    if !verify_labelled(CONFIG_SEED, program_id, config_key) {
        return Err(StakingError::InvalidDerivation);
    }
    Ok(ConfigData { unbonding_time: data.unbonding_time, staking_token: data.staking_token })
}

/// What the operator supplies for a new pool.
#[derive(Clone, Debug)]
pub struct CreateStakePoolData {
    pub name: String,
    pub description: String,
    pub icon: String,
    pub commission: u16,
}

/// The first check that creating a pool fails, if any.
pub open spec fn create_stake_pool_refusal(
    program_id: Address,
    config: ConfigData,
    stake_pool_key: Address,
    staking_token_account: Address,
    distribution_token_account: Address,
    deactivating_token_account: Address,
    reward_account: TokenAccount,
    staking_mint: Address,
    commission: u16,
) -> Option<StakingError> {
    if config.staking_token.key() != staking_mint.key() {
        Some(StakingError::WrongMint)
    } else if config.staking_token.key() != reward_account.mint.key() {
        Some(StakingError::WrongMint)
    } else if !is_staking_account(program_id, stake_pool_key, staking_token_account) {
        Some(StakingError::InvalidDerivation)
    } else if !is_distribution_account(program_id, stake_pool_key, distribution_token_account) {
        Some(StakingError::InvalidDerivation)
    } else if !is_deactivating_account(program_id, stake_pool_key, deactivating_token_account) {
        Some(StakingError::InvalidDerivation)
    } else if commission > BPS_DENOMINATOR {
        Some(StakingError::InvalidCommission)
    } else {
        None
    }
}

/// Creates a pool of the staking token, run by `operator`, whose rewards
/// arrive in its distribution account and whose commission goes to
/// `reward_account`. Both sub-pools start without shares and the pool is
/// active. The three token accounts of the pool must sit at their derived
/// addresses, and the commission may not exceed the whole.
pub fn create_stake_pool(
    program_id: &Address,
    config: &ConfigData,
    stake_pool_key: &Address,
    staking_token_account: &Address,
    distribution_token_account: &Address,
    deactivating_token_account: &Address,
    operator: &Address,
    reward_account: &TokenAccount,
    staking_mint: &Address,
    data: CreateStakePoolData,
) -> (r: Result<StakePoolData, StakingError>)
    ensures
        match r {
            Ok(p) => {
                &&& create_stake_pool_refusal(*program_id, *config, *stake_pool_key, *staking_token_account,
                    *distribution_token_account, *deactivating_token_account, *reward_account,
                    *staking_mint, data.commission) is None
                &&& p.operator == *operator
                &&& p.name == data.name && p.description == data.description && p.icon == data.icon
                &&& p.commission == data.commission
                &&& p.reward_account == reward_account.key
                &&& p.total_shares == 0 && p.total_shares_unbonding == 0
                &&& p.state == StakePoolState::ACTIVE
            },
            Err(e) => create_stake_pool_refusal(*program_id, *config, *stake_pool_key, *staking_token_account,
                *distribution_token_account, *deactivating_token_account, *reward_account,
                *staking_mint, data.commission) == Some(e),
        },
{
    if !config.staking_token.same(staking_mint) {
        return Err(StakingError::WrongMint);
    }
    if !config.staking_token.same(&reward_account.mint) {
        return Err(StakingError::WrongMint);
    }
    let staking = StakePoolStakingTokenAccountDerivationData { stake_pool: *stake_pool_key };
    if !staking.verify(program_id, staking_token_account) {
        return Err(StakingError::InvalidDerivation);
    }
    let distribution = StakePoolDistributionTokenAccountDerivationData { stake_pool: *stake_pool_key };
    if !distribution.verify(program_id, distribution_token_account) {
        return Err(StakingError::InvalidDerivation);
    }
    let deactivating = StakePoolDeactivatingTokenAccountDerivationData { stake_pool: *stake_pool_key };
    if !deactivating.verify(program_id, deactivating_token_account) {
        return Err(StakingError::InvalidDerivation);
    }
    if data.commission as u64 > BPS_DENOMINATOR {
        return Err(StakingError::InvalidCommission);
    }
    Ok(
        StakePoolData {
            operator: *operator,
            name: data.name,
            description: data.description,
            icon: data.icon,
            commission: data.commission,
            reward_account: reward_account.key,
            total_shares: 0,
            total_shares_unbonding: 0,
            state: StakePoolState::ACTIVE,
        },
    )
}

/// The metadata an edit replaces; absent fields stay as they are.
#[derive(Clone, Debug)]
pub struct EditStakePoolData {
    pub name: Option<String>,
    pub description: Option<String>,
    pub icon: Option<String>,
    pub commission: Option<u16>,
}

/// Edits a pool's metadata and hands it to `new_operator` (the current
/// operator when nothing should change). Only the operator may edit, and a
/// new commission may not exceed the whole; share totals and the pool's state
/// are left alone.
pub fn edit_stake_pool(
    stake_pool: &mut StakePoolData,
    operator: &Address,
    new_operator: &Address,
    data: EditStakePoolData,
) -> (r: Result<(), StakingError>)
    ensures
        r is Err <==> old(stake_pool).operator.key() != operator.key() || (data.commission matches Some(
            c) && c > BPS_DENOMINATOR),
        r matches Err(e) ==> *final(stake_pool) == *old(stake_pool) && (if old(stake_pool).operator.key()
            != operator.key() {
            e == StakingError::InvalidOwner
        } else {
            e == StakingError::InvalidCommission
        }),
        r is Ok ==> {
            &&& final(stake_pool).name == (match data.name {
                Some(n) => n,
                None => old(stake_pool).name,
            })
            &&& final(stake_pool).description == (match data.description {
                Some(d) => d,
                None => old(stake_pool).description,
            })
            &&& final(stake_pool).icon == (match data.icon {
                Some(i) => i,
                None => old(stake_pool).icon,
            })
            &&& final(stake_pool).commission == (match data.commission {
                Some(c) => c,
                None => old(stake_pool).commission,
            })
            &&& final(stake_pool).operator.key() == new_operator.key()
            &&& final(stake_pool).reward_account == old(stake_pool).reward_account
            &&& final(stake_pool).total_shares == old(stake_pool).total_shares
            &&& final(stake_pool).total_shares_unbonding == old(stake_pool).total_shares_unbonding
            &&& final(stake_pool).state == old(stake_pool).state
        },
{
    if !stake_pool.operator.same(operator) {
        return Err(StakingError::InvalidOwner);
    }
    if let Some(commission) = data.commission {
        if commission as u64 > BPS_DENOMINATOR {
            return Err(StakingError::InvalidCommission);
        }
    }
    if let Some(name) = data.name {
        stake_pool.name = name;
    }
    if let Some(description) = data.description {
        stake_pool.description = description;
    }
    if let Some(icon) = data.icon {
        stake_pool.icon = icon;
    }
    if let Some(commission) = data.commission {
        stake_pool.commission = commission;
    }
    if !operator.same(new_operator) {
        stake_pool.operator = *new_operator;
    }
    Ok(())
}

/// Stops a pool from taking new bonds. Only its operator may, and only once.
pub fn deactivate_stake_pool(stake_pool: &mut StakePoolData, operator: &Address) -> (r: Result<(), StakingError>)
    ensures
        r matches Err(e) ==> *final(stake_pool) == *old(stake_pool) && (if old(stake_pool).operator.key()
            != operator.key() {
            e == StakingError::InvalidOwner
        } else {
            old(stake_pool).state == StakePoolState::DEACTIVATED && e == StakingError::StakePoolDeactivated
        }),
        r is Ok <==> old(stake_pool).operator.key() == operator.key() && old(stake_pool).state
            == StakePoolState::ACTIVE,
        r is Ok ==> *final(stake_pool) == (StakePoolData { state: StakePoolState::DEACTIVATED, ..*old(stake_pool) }),
{
    if !stake_pool.operator.same(operator) {
        return Err(StakingError::InvalidOwner);
    }
    if stake_pool.state != StakePoolState::ACTIVE {
        return Err(StakingError::StakePoolDeactivated);
    }
    stake_pool.state = StakePoolState::DEACTIVATED;
    Ok(())
}

} // verus!

verus! {

/// The operator's cut of `rewards` at `commission` basis points, rounded down.
pub open spec fn operator_cut(rewards: int, commission: int) -> int {
    rewards * commission / BPS_DENOMINATOR as int
}

/// How a reward is divided.
#[derive(Clone, Copy, Debug, PartialEq, Eq, Structural)]
pub struct RewardSplit {
    pub to_operator: u64,
    pub to_stakers: u64,
}

/// Splits `rewards` into the operator's commission (in basis points, rounded
/// down) and the stakers' remainder; `None` when the commission exceeds the
/// whole.
pub fn split_reward(rewards: u64, commission: u16) -> (r: Option<RewardSplit>)
    ensures
        r is Some <==> commission <= BPS_DENOMINATOR,
        r matches Some(s) ==> s.to_operator == operator_cut(rewards as int, commission as int)
            && s.to_operator + s.to_stakers == rewards,
{
    if commission as u64 > BPS_DENOMINATOR {
        return None;
    }
    proof {
        assert((rewards as int) * (commission as int) <= (rewards as int) * 10000) by (nonlinear_arith)
            requires
                commission <= 10000,
        ;
        assert((rewards as int) * 10000 / 10000 == rewards as int);
        vstd::arithmetic::div_mod::lemma_div_is_ordered(
            (rewards as int) * (commission as int),
            (rewards as int) * 10000,
            10000,
        );
        assert(0 <= (rewards as int) * (commission as int)) by (nonlinear_arith);
        assert((rewards as int) * (commission as int) <= u128::MAX) by (nonlinear_arith)
            requires
                commission <= 10000,
                rewards <= u64::MAX,
        ;
    }
    let to_operator = ((rewards as u128) * (commission as u128) / (BPS_DENOMINATOR as u128)) as u64;
    Some(RewardSplit { to_operator, to_stakers: rewards - to_operator })
}

/// The two movements of a reward distribution.
#[derive(Clone, Copy, Debug)]
pub struct SyncTransfers {
    pub to_stakers: Transfer,
    pub to_operator: Transfer,
}

/// The first check that a reward distribution fails, if any.
pub open spec fn sync_refusal(
    program_id: Address,
    stake_pool_key: Address,
    stake_pool: StakePoolData,
    staking: TokenAccount,
    distribution: TokenAccount,
    operator_token_account: Address,
) -> Option<StakingError> {
    if !is_staking_account(program_id, stake_pool_key, staking.key) {
        Some(StakingError::InvalidDerivation)
    } else if !is_distribution_account(program_id, stake_pool_key, distribution.key) {
        Some(StakingError::InvalidDerivation)
    } else if operator_token_account.key() != stake_pool.reward_account.key() {
        Some(StakingError::InvalidTokenAccount)
    } else if stake_pool.commission > BPS_DENOMINATOR || staking.amount + (distribution.amount
        - operator_cut(distribution.amount as int, stake_pool.commission as int)) > u64::MAX {
        Some(StakingError::ArithmeticError)
    } else {
        None
    }
}

/// Distributes the rewards waiting in the pool's distribution account: the
/// operator's commission goes to the pool's reward account and the rest into
/// the active sub-pool, without minting shares, so every existing share is
/// worth more.
pub fn sync_stake_pool(
    program_id: &Address,
    stake_pool_key: &Address,
    stake_pool: &StakePoolData,
    stake_pool_staking_token_account: &TokenAccount,
    stake_pool_distribution_token_account: &TokenAccount,
    operator_token_account: &Address,
) -> (r: Result<SyncTransfers, StakingError>)
    ensures
        match r {
            Ok(t) => {
                &&& sync_refusal(*program_id, *stake_pool_key, *stake_pool, *stake_pool_staking_token_account,
                    *stake_pool_distribution_token_account, *operator_token_account) is None
                &&& t.to_operator.moves(stake_pool_distribution_token_account.key, *operator_token_account,
                    operator_cut(stake_pool_distribution_token_account.amount as int, stake_pool.commission as int))
                &&& t.to_stakers.moves(stake_pool_distribution_token_account.key,
                    stake_pool_staking_token_account.key, stake_pool_distribution_token_account.amount
                    - operator_cut(stake_pool_distribution_token_account.amount as int, stake_pool.commission as int))
            },
            Err(e) => sync_refusal(*program_id, *stake_pool_key, *stake_pool, *stake_pool_staking_token_account,
                *stake_pool_distribution_token_account, *operator_token_account) == Some(e),
        },
{
    let staking = StakePoolStakingTokenAccountDerivationData { stake_pool: *stake_pool_key };
    if !staking.verify(program_id, &stake_pool_staking_token_account.key) {
        return Err(StakingError::InvalidDerivation);
    }
    let distribution = StakePoolDistributionTokenAccountDerivationData { stake_pool: *stake_pool_key };
    if !distribution.verify(program_id, &stake_pool_distribution_token_account.key) {
        return Err(StakingError::InvalidDerivation);
    }
    if !operator_token_account.same(&stake_pool.reward_account) {
        return Err(StakingError::InvalidTokenAccount);
    }
    // Both shares are computed from the balance seen before either moves.
    let rewards = stake_pool_distribution_token_account.amount;
    let split = match split_reward(rewards, stake_pool.commission) {
        Some(s) => s,
        None => return Err(StakingError::ArithmeticError),
    };
    if stake_pool_staking_token_account.amount.checked_add(split.to_stakers).is_none() {
        return Err(StakingError::ArithmeticError);
    }
    Ok(
        SyncTransfers {
            to_stakers: Transfer {
                source: stake_pool_distribution_token_account.key,
                destination: stake_pool_staking_token_account.key,
                amount: split.to_stakers,
            },
            to_operator: Transfer {
                source: stake_pool_distribution_token_account.key,
                destination: *operator_token_account,
                amount: split.to_operator,
            },
        },
    )
}

} // verus!
