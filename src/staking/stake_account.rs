//! The stake account lifecycle: unbonded, bonded to a pool, unbonding from it,
//! and back. Each operation checks the caller, the accounts it was handed and
//! the lifecycle state, then changes the records and names the token movement
//! that goes with the change; on refusal nothing changes.
use crate::address::Address;
use crate::derivation::{is_derived, verify_labelled};
use crate::lamports::move_lamports;
use crate::schedule::{claimable_amount, fully_vested, is_fully_vested, unlocked};
use crate::shares::{
    deposit_defined, deposit_shares, lemma_value_bounded, redemption_defined, share_value, shares_for_deposit,
    value_of_shares,
};
use crate::staking::accounts::{
    is_deactivating_account, is_staking_account, StakePoolDeactivatingTokenAccountDerivationData,
    StakePoolStakingTokenAccountDerivationData, STAKE_ACCOUNT_CUSTODY_SEED,
};
use crate::staking::error::StakingError;
use crate::staking::types::{
    ConfigData, StakeAccountData, StakeAccountState, StakeAccountType, StakePoolData, StakePoolState,
    UnbondingData, VestingData,
};
use crate::token::{CloseAccount, TokenAccount, TokenAccountState, Transfer};
use vstd::prelude::*;
use vstd::string::StringSliceAdditionalSpecFns;

verus! {

/// Shares minted when the whole custody balance bonds into the active sub-pool.
pub open spec fn bond_minted(custody: TokenAccount, pool: StakePoolData, staking: TokenAccount) -> int {
    deposit_shares(custody.amount as int, pool.total_shares as int, staking.amount as int)
}

/// The first check that a bond fails, if any.
pub open spec fn bond_refusal(
    program_id: Address,
    account: StakeAccountData,
    custody: TokenAccount,
    pool_key: Address,
    pool: StakePoolData,
    staking: TokenAccount,
    owner: Address,
) -> Option<StakingError> {
    if account.owner.key() != owner.key() {
        Some(StakingError::InvalidOwner)
    } else if account.custody_account.key() != custody.key.key() {
        Some(StakingError::WrongMint)
    } else if !(account.account_state is UNBONDED) {
        Some(StakingError::NotUnbonded)
    } else if !is_staking_account(program_id, pool_key, staking.key) {
        Some(StakingError::InvalidDerivation)
    } else if pool.state == StakePoolState::DEACTIVATED {
        Some(StakingError::StakePoolDeactivated)
    } else if !deposit_defined(custody.amount as int, pool.total_shares as int, staking.amount as int)
        || pool.total_shares + bond_minted(custody, pool, staking) > u128::MAX {
        Some(StakingError::ArithmeticError)
    } else if bond_minted(custody, pool, staking) == 0 {
        Some(StakingError::InsufficientFunds)
    } else {
        None
    }
}

/// Bonds an unbonded account into an active pool: its whole custody balance
/// buys shares of the active sub-pool at the price seen before the tokens
/// arrive, and moves from custody into the sub-pool. A deposit that would buy
/// no shares (an empty custody, or one rounded down to nothing) is refused
/// with `InsufficientFunds`, so a bonded account always holds shares.
pub fn bond_stake_account(
    program_id: &Address,
    stake_account: &mut StakeAccountData,
    stake_custody: &TokenAccount,
    stake_pool_key: &Address,
    stake_pool: &mut StakePoolData,
    stake_pool_staking_token_account: &TokenAccount,
    owner: &Address,
) -> (r: Result<Transfer, StakingError>)
    ensures
        match r {
            Ok(t) => {
                &&& bond_refusal(*program_id, *old(stake_account), *stake_custody, *stake_pool_key,
                    *old(stake_pool), *stake_pool_staking_token_account, *owner) is None
                &&& *final(stake_pool) == old(stake_pool).with_totals(
                    old(stake_pool).total_shares + bond_minted(*stake_custody, *old(stake_pool),
                        *stake_pool_staking_token_account),
                    old(stake_pool).total_shares_unbonding as int,
                )
                &&& *final(stake_account) == old(stake_account).entered(
                    StakeAccountState::BONDED(*stake_pool_key),
                    bond_minted(*stake_custody, *old(stake_pool), *stake_pool_staking_token_account),
                )
                &&& t.moves(stake_custody.key, stake_pool_staking_token_account.key, stake_custody.amount as int)
                &&& final(stake_account).well_formed()
            },
            Err(e) => {
                &&& bond_refusal(*program_id, *old(stake_account), *stake_custody, *stake_pool_key,
                    *old(stake_pool), *stake_pool_staking_token_account, *owner) == Some(e)
                &&& *final(stake_pool) == *old(stake_pool)
                &&& *final(stake_account) == *old(stake_account)
            },
        },
{
    if !stake_account.owner.same(owner) {
        return Err(StakingError::InvalidOwner);
    }
    if !stake_account.custody_account.same(&stake_custody.key) {
        return Err(StakingError::WrongMint);
    }
    match stake_account.account_state {
        StakeAccountState::UNBONDED => {},
        _ => return Err(StakingError::NotUnbonded),
    }
    let derivation = StakePoolStakingTokenAccountDerivationData { stake_pool: *stake_pool_key };
    if !derivation.verify(program_id, &stake_pool_staking_token_account.key) {
        return Err(StakingError::InvalidDerivation);
    }
    if stake_pool.state == StakePoolState::DEACTIVATED {
        return Err(StakingError::StakePoolDeactivated);
    }
    // The price is taken before the deposit reaches the sub-pool.
    let stake_amount = stake_custody.amount;
    let shares = match shares_for_deposit(
        stake_amount,
        stake_pool.total_shares,
        stake_pool_staking_token_account.amount,
    ) {
        Some(s) => s,
        None => return Err(StakingError::ArithmeticError),
    };
    let total = match stake_pool.total_shares.checked_add(shares) {
        Some(t) => t,
        None => return Err(StakingError::ArithmeticError),
    };
    if shares == 0 {
        return Err(StakingError::InsufficientFunds);
    }
    stake_pool.total_shares = total;
    stake_account.shares = shares;
    stake_account.account_state = StakeAccountState::BONDED(*stake_pool_key);
    Ok(
        Transfer {
            source: stake_custody.key,
            destination: stake_pool_staking_token_account.key,
            amount: stake_amount,
        },
    )
}

} // verus!

verus! {

/// Active shares left once the account's shares are redeemed.
pub open spec fn unbond_remaining(account: StakeAccountData, pool: StakePoolData) -> int {
    pool.total_shares - account.shares
}

/// Tokens the account's shares fetch, priced against all shares outstanding
/// in the active sub-pool before the redemption.
pub open spec fn unbond_value(account: StakeAccountData, pool: StakePoolData, staking: TokenAccount) -> int {
    share_value(account.shares as int, staking.amount as int, pool.total_shares as int)
}

/// Shares of the deactivating sub-pool that the redeemed tokens buy.
pub open spec fn unbond_minted(
    account: StakeAccountData,
    pool: StakePoolData,
    staking: TokenAccount,
    deactivating: TokenAccount,
) -> int {
    deposit_shares(
        unbond_value(account, pool, staking),
        pool.total_shares_unbonding as int,
        deactivating.amount as int,
    )
}

/// The first check that an unbond fails, if any.
pub open spec fn unbond_refusal(
    program_id: Address,
    config_unbonding_time: u64,
    account: StakeAccountData,
    pool_key: Address,
    pool: StakePoolData,
    staking: TokenAccount,
    deactivating: TokenAccount,
    owner: Address,
    now: u64,
) -> Option<StakingError> {
    if account.owner.key() != owner.key() {
        Some(StakingError::InvalidOwner)
    } else if !is_staking_account(program_id, pool_key, staking.key) {
        Some(StakingError::InvalidDerivation)
    } else if !is_deactivating_account(program_id, pool_key, deactivating.key) {
        Some(StakingError::InvalidDerivation)
    } else if !(account.account_state is BONDED) {
        Some(StakingError::NotBonded)
    } else if account.account_state->BONDED_0.key() != pool_key.key() {
        Some(StakingError::InvalidPool)
    } else if account.shares > pool.total_shares || !redemption_defined(
        account.shares as int,
        staking.amount as int,
        pool.total_shares as int,
    ) {
        Some(StakingError::ArithmeticError)
    } else if !deposit_defined(
        unbond_value(account, pool, staking),
        pool.total_shares_unbonding as int,
        deactivating.amount as int,
    ) || pool.total_shares_unbonding + unbond_minted(account, pool, staking, deactivating) > u128::MAX
        || now + config_unbonding_time > u64::MAX {
        Some(StakingError::ArithmeticError)
    } else if unbond_minted(account, pool, staking, deactivating) == 0 {
        Some(StakingError::InsufficientFunds)
    } else {
        None
    }
}

/// Starts unbonding a bonded account: its shares are redeemed pro rata from
/// the active sub-pool, priced against all shares outstanding before the
/// redemption, and leave its total; the tokens buy shares of the deactivating
/// sub-pool, held until `now` plus the configured unbonding time. A
/// redemption that would buy no deactivating shares is refused with
/// `InsufficientFunds`, so an unbonding account always holds shares.
pub fn unbond_stake_account(
    program_id: &Address,
    config_unbonding_time: u64,
    stake_account: &mut StakeAccountData,
    stake_pool_key: &Address,
    stake_pool: &mut StakePoolData,
    stake_pool_staking_token_account: &TokenAccount,
    stake_pool_deactivating_token_account: &TokenAccount,
    owner: &Address,
    now: u64,
) -> (r: Result<Transfer, StakingError>)
    ensures
        match r {
            Ok(t) => {
                &&& unbond_refusal(*program_id, config_unbonding_time, *old(stake_account),
                    *stake_pool_key, *old(stake_pool), *stake_pool_staking_token_account,
                    *stake_pool_deactivating_token_account, *owner, now) is None
                &&& *final(stake_pool) == old(stake_pool).with_totals(
                    unbond_remaining(*old(stake_account), *old(stake_pool)),
                    old(stake_pool).total_shares_unbonding + unbond_minted(*old(stake_account),
                        *old(stake_pool), *stake_pool_staking_token_account,
                        *stake_pool_deactivating_token_account),
                )
                &&& *final(stake_account) == old(stake_account).entered(
                    StakeAccountState::UNBONDING(UnbondingData {
                        pool: *stake_pool_key,
                        unbonding_time: (now + config_unbonding_time) as u64,
                        unbonding_shares: unbond_minted(*old(stake_account), *old(stake_pool),
                            *stake_pool_staking_token_account,
                            *stake_pool_deactivating_token_account) as u128,
                    }),
                    0,
                )
                &&& t.moves(stake_pool_staking_token_account.key, stake_pool_deactivating_token_account.key,
                    unbond_value(*old(stake_account), *old(stake_pool), *stake_pool_staking_token_account))
                &&& t.amount <= stake_pool_staking_token_account.amount
                &&& final(stake_account).well_formed()
            },
            Err(e) => {
                &&& unbond_refusal(*program_id, config_unbonding_time, *old(stake_account),
                    *stake_pool_key, *old(stake_pool), *stake_pool_staking_token_account,
                    *stake_pool_deactivating_token_account, *owner, now) == Some(e)
                &&& *final(stake_pool) == *old(stake_pool)
                &&& *final(stake_account) == *old(stake_account)
            },
        },
{
    if !stake_account.owner.same(owner) {
        return Err(StakingError::InvalidOwner);
    }
    let staking = StakePoolStakingTokenAccountDerivationData { stake_pool: *stake_pool_key };
    if !staking.verify(program_id, &stake_pool_staking_token_account.key) {
        return Err(StakingError::InvalidDerivation);
    }
    let deactivating = StakePoolDeactivatingTokenAccountDerivationData { stake_pool: *stake_pool_key };
    if !deactivating.verify(program_id, &stake_pool_deactivating_token_account.key) {
        return Err(StakingError::InvalidDerivation);
    }
    match stake_account.account_state {
        StakeAccountState::BONDED(pool) => {
            if !pool.same(stake_pool_key) {
                return Err(StakingError::InvalidPool);
            }
        },
        _ => return Err(StakingError::NotBonded),
    }
    // The price is taken over all shares outstanding, before the redemption.
    let shares = stake_account.shares;
    if shares > stake_pool.total_shares {
        return Err(StakingError::ArithmeticError);
    }
    let staking_balance = stake_pool_staking_token_account.amount;
    let unstake_amount = match value_of_shares(shares, staking_balance, stake_pool.total_shares) {
        Some(v) => v,
        None => return Err(StakingError::ArithmeticError),
    };
    proof {
        lemma_value_bounded(shares as int, staking_balance as int, stake_pool.total_shares as int);
    }
    let remaining = stake_pool.total_shares - shares;
    // The price of the deactivating sub-pool is taken before the tokens arrive.
    let unbonding_shares = match shares_for_deposit(
        unstake_amount,
        stake_pool.total_shares_unbonding,
        stake_pool_deactivating_token_account.amount,
    ) {
        Some(s) => s,
        None => return Err(StakingError::ArithmeticError),
    };
    let total_unbonding = match stake_pool.total_shares_unbonding.checked_add(unbonding_shares) {
        Some(t) => t,
        None => return Err(StakingError::ArithmeticError),
    };
    let unbonding_time = match now.checked_add(config_unbonding_time) {
        Some(t) => t,
        None => return Err(StakingError::ArithmeticError),
    };
    if unbonding_shares == 0 {
        return Err(StakingError::InsufficientFunds);
    }
    stake_pool.total_shares = remaining;
    stake_pool.total_shares_unbonding = total_unbonding;
    stake_account.shares = 0;
    stake_account.account_state = StakeAccountState::UNBONDING(
        UnbondingData { pool: *stake_pool_key, unbonding_time, unbonding_shares },
    );
    Ok(
        Transfer {
            source: stake_pool_staking_token_account.key,
            destination: stake_pool_deactivating_token_account.key,
            amount: unstake_amount,
        },
    )
}

/// Tokens that the unbonding shares fetch from the deactivating sub-pool.
pub open spec fn completion_value(
    unbonding: UnbondingData,
    pool: StakePoolData,
    deactivating: TokenAccount,
) -> int {
    share_value(
        unbonding.unbonding_shares as int,
        deactivating.amount as int,
        pool.total_shares_unbonding as int,
    )
}

/// The first check that completing an unbond fails, if any.
pub open spec fn complete_unbond_refusal(
    program_id: Address,
    account: StakeAccountData,
    custody: TokenAccount,
    pool_key: Address,
    pool: StakePoolData,
    deactivating: TokenAccount,
    owner: Address,
    now: u64,
) -> Option<StakingError> {
    if account.owner.key() != owner.key() {
        Some(StakingError::InvalidOwner)
    } else if !is_deactivating_account(program_id, pool_key, deactivating.key) {
        Some(StakingError::InvalidDerivation)
    } else if account.custody_account.key() != custody.key.key() {
        Some(StakingError::WrongMint)
    } else if !(account.account_state is UNBONDING) {
        Some(StakingError::NotUnbonding)
    } else if account.account_state->UNBONDING_0.pool.key() != pool_key.key() {
        Some(StakingError::InvalidPool)
    } else if now < account.account_state->UNBONDING_0.unbonding_time {
        Some(StakingError::StillUnbonding)
    } else if !redemption_defined(
        account.account_state->UNBONDING_0.unbonding_shares as int,
        deactivating.amount as int,
        pool.total_shares_unbonding as int,
    ) || account.account_state->UNBONDING_0.unbonding_shares > pool.total_shares_unbonding {
        Some(StakingError::ArithmeticError)
    } else {
        None
    }
}

/// Completes an unbonding whose time has come: the unbonding shares are
/// redeemed from the deactivating sub-pool and the tokens go back to the
/// account's custody.
pub fn complete_unbond_stake_account(
    program_id: &Address,
    stake_account: &mut StakeAccountData,
    stake_custody: &TokenAccount,
    stake_pool_key: &Address,
    stake_pool: &mut StakePoolData,
    stake_pool_deactivating_token_account: &TokenAccount,
    owner: &Address,
    now: u64,
) -> (r: Result<Transfer, StakingError>)
    ensures
        match r {
            Ok(t) => {
                &&& complete_unbond_refusal(*program_id, *old(stake_account), *stake_custody,
                    *stake_pool_key, *old(stake_pool), *stake_pool_deactivating_token_account,
                    *owner, now) is None
                &&& *final(stake_pool) == old(stake_pool).with_totals(
                    old(stake_pool).total_shares as int,
                    old(stake_pool).total_shares_unbonding
                        - old(stake_account).account_state->UNBONDING_0.unbonding_shares,
                )
                &&& *final(stake_account) == old(stake_account).entered(StakeAccountState::UNBONDED, 0)
                &&& t.moves(stake_pool_deactivating_token_account.key, stake_custody.key,
                    completion_value(old(stake_account).account_state->UNBONDING_0, *old(stake_pool),
                        *stake_pool_deactivating_token_account))
                &&& t.amount <= stake_pool_deactivating_token_account.amount
                &&& final(stake_account).well_formed()
            },
            Err(e) => {
                &&& complete_unbond_refusal(*program_id, *old(stake_account), *stake_custody,
                    *stake_pool_key, *old(stake_pool), *stake_pool_deactivating_token_account,
                    *owner, now) == Some(e)
                &&& *final(stake_pool) == *old(stake_pool)
                &&& *final(stake_account) == *old(stake_account)
            },
        },
{
    if !stake_account.owner.same(owner) {
        return Err(StakingError::InvalidOwner);
    }
    let deactivating = StakePoolDeactivatingTokenAccountDerivationData { stake_pool: *stake_pool_key };
    if !deactivating.verify(program_id, &stake_pool_deactivating_token_account.key) {
        return Err(StakingError::InvalidDerivation);
    }
    if !stake_account.custody_account.same(&stake_custody.key) {
        return Err(StakingError::WrongMint);
    }
    let unbonding = match stake_account.account_state {
        StakeAccountState::UNBONDING(d) => d,
        _ => return Err(StakingError::NotUnbonding),
    };
    if !unbonding.pool.same(stake_pool_key) {
        return Err(StakingError::InvalidPool);
    }
    if now < unbonding.unbonding_time {
        return Err(StakingError::StillUnbonding);
    }
    let balance = stake_pool_deactivating_token_account.amount;
    let unstake_amount = match value_of_shares(
        unbonding.unbonding_shares,
        balance,
        stake_pool.total_shares_unbonding,
    ) {
        Some(v) => v,
        None => return Err(StakingError::ArithmeticError),
    };
    if unbonding.unbonding_shares > stake_pool.total_shares_unbonding {
        return Err(StakingError::ArithmeticError);
    }
    proof {
        lemma_value_bounded(
            unbonding.unbonding_shares as int,
            balance as int,
            stake_pool.total_shares_unbonding as int,
        );
    }
    stake_pool.total_shares_unbonding = stake_pool.total_shares_unbonding - unbonding.unbonding_shares;
    stake_account.shares = 0;
    stake_account.account_state = StakeAccountState::UNBONDED;
    Ok(
        Transfer {
            source: stake_pool_deactivating_token_account.key,
            destination: stake_custody.key,
            amount: unstake_amount,
        },
    )
}

} // verus!

verus! {

/// Whether `signer` is the program's custody signer for stake accounts.
pub open spec fn is_stake_custody_signer(program_id: Address, signer: Address) -> bool {
    is_derived(seq![STAKE_ACCOUNT_CUSTODY_SEED.spec_bytes()], program_id.key(), signer.key())
}

/// The amount a withdrawal request asks for.
pub struct WithdrawStakeAccountData {
    pub amount: u64,
}

/// The first check that a withdrawal fails, if any.
pub open spec fn withdraw_refusal(
    program_id: Address,
    account: StakeAccountData,
    custody: TokenAccount,
    custody_signer: Address,
    owner: Address,
    amount: u64,
    now: u64,
) -> Option<StakingError> {
    if account.owner.key() != owner.key() {
        Some(StakingError::InvalidOwner)
    } else if account.custody_account.key() != custody.key.key() {
        Some(StakingError::WrongMint)
    } else if !(account.account_state is UNBONDED) {
        Some(StakingError::NotUnbonded)
    } else if !is_stake_custody_signer(program_id, custody_signer) {
        Some(StakingError::InvalidDerivation)
    } else {
        match account.account_type {
            StakeAccountType::TOKEN => if amount > custody.amount {
                Some(StakingError::InsufficientFunds)
            } else {
                None
            },
            StakeAccountType::VESTING(v) => if now < v.cliff_date {
                None
            } else if amount > claimable_amount(
                now as int,
                v.cliff_date as int,
                v.vesting_duration as int,
                v.initial_balance as int,
                custody.amount as int,
            ) {
                Some(StakingError::InsufficientFunds)
            } else {
                None
            },
        }
    }
}

/// Whether a withdrawal that passes its checks moves nothing: a vesting
/// account before its cliff.
pub open spec fn withdraw_is_noop(account: StakeAccountData, now: u64) -> bool {
    account.account_type matches StakeAccountType::VESTING(v) && now < v.cliff_date
}

/// Withdraws `data.amount` tokens from an unbonded account's custody to `to`.
/// A plain account may take up to its balance; a vesting account up to what
/// its schedule has unlocked less what already left, and nothing (without
/// error) before the cliff.
pub fn withdraw_stake_account(
    program_id: &Address,
    stake_account: &StakeAccountData,
    to: &Address,
    custody: &TokenAccount,
    custody_signer: &Address,
    owner: &Address,
    now: u64,
    data: &WithdrawStakeAccountData,
) -> (r: Result<Option<Transfer>, StakingError>)
    ensures
        match r {
            Ok(None) => withdraw_refusal(*program_id, *stake_account, *custody, *custody_signer, *owner,
                data.amount, now) is None && withdraw_is_noop(*stake_account, now),
            Ok(Some(t)) => {
                &&& withdraw_refusal(*program_id, *stake_account, *custody, *custody_signer, *owner,
                    data.amount, now) is None
                &&& !withdraw_is_noop(*stake_account, now)
                &&& t.moves(custody.key, *to, data.amount as int)
                &&& t.amount <= custody.amount
            },
            Err(e) => withdraw_refusal(*program_id, *stake_account, *custody, *custody_signer, *owner,
                data.amount, now) == Some(e),
        },
{
    if !stake_account.owner.same(owner) {
        return Err(StakingError::InvalidOwner);
    }
    if !stake_account.custody_account.same(&custody.key) {
        return Err(StakingError::WrongMint);
    }
    match stake_account.account_state {
        StakeAccountState::UNBONDED => {},
        _ => return Err(StakingError::NotUnbonded),
    }
    if !verify_labelled(STAKE_ACCOUNT_CUSTODY_SEED, program_id, custody_signer) {
        return Err(StakingError::InvalidDerivation);
    }
    match stake_account.account_type {
        StakeAccountType::TOKEN => {
            if data.amount > custody.amount {
                return Err(StakingError::InsufficientFunds);
            }
        },
        StakeAccountType::VESTING(vesting) => {
            if now < vesting.cliff_date {
                return Ok(None);
            }
            let unlocked_amount = unlocked(
                now,
                vesting.cliff_date,
                vesting.vesting_duration,
                vesting.initial_balance,
            );
            // What may leave is unlocked + balance - initial, compared without underflow.
            let available = (unlocked_amount as u128) + (custody.amount as u128);
            if (data.amount as u128) + (vesting.initial_balance as u128) > available {
                return Err(StakingError::InsufficientFunds);
            }
        },
    }
    Ok(Some(Transfer { source: custody.key, destination: *to, amount: data.amount }))
}

/// The first check that closing an account fails, if any.
pub open spec fn close_refusal(
    account: StakeAccountData,
    custody: TokenAccount,
    owner: Address,
    account_lamports: u64,
    owner_lamports: u64,
    now: u64,
) -> Option<StakingError> {
    if account.owner.key() != owner.key() {
        Some(StakingError::InvalidOwner)
    } else if account.custody_account.key() != custody.key.key() {
        Some(StakingError::WrongMint)
    } else if !(account.account_state is UNBONDED) {
        Some(StakingError::NotUnbonded)
    } else if account.account_type matches StakeAccountType::VESTING(v) && !fully_vested(
        now as int,
        v.cliff_date as int,
        v.vesting_duration as int,
    ) {
        Some(StakingError::NotVested)
    } else if owner_lamports + account_lamports > u64::MAX {
        Some(StakingError::InsufficientFunds)
    } else {
        None
    }
}

/// Closes an unbonded (and, if vesting, fully vested) account: the record's
/// reserve balance goes to the owner, and the custody token account is closed
/// into `to`.
pub fn close_stake_account(
    stake_account: &StakeAccountData,
    stake_account_lamports: &mut u64,
    to: &Address,
    custody: &TokenAccount,
    owner: &Address,
    owner_lamports: &mut u64,
    now: u64,
) -> (r: Result<CloseAccount, StakingError>)
    ensures
        !(stake_account.account_state is UNBONDED) ==> r is Err,
        r is Ok ==> stake_account.account_state is UNBONDED && (stake_account.account_type matches StakeAccountType::VESTING(v)
            ==> fully_vested(now as int, v.cliff_date as int, v.vesting_duration as int)),
        match r {
            Ok(c) => {
                &&& close_refusal(*stake_account, *custody, *owner, *old(stake_account_lamports),
                    *old(owner_lamports), now) is None
                &&& *final(stake_account_lamports) == 0
                &&& *final(owner_lamports) == *old(owner_lamports) + *old(stake_account_lamports)
                &&& c.account == custody.key && c.destination == *to
            },
            Err(e) => {
                &&& close_refusal(*stake_account, *custody, *owner, *old(stake_account_lamports),
                    *old(owner_lamports), now) == Some(e)
                &&& *final(stake_account_lamports) == *old(stake_account_lamports)
                &&& *final(owner_lamports) == *old(owner_lamports)
            },
        },
{
    if !stake_account.owner.same(owner) {
        return Err(StakingError::InvalidOwner);
    }
    if !stake_account.custody_account.same(&custody.key) {
        return Err(StakingError::WrongMint);
    }
    match stake_account.account_state {
        StakeAccountState::UNBONDED => {},
        _ => return Err(StakingError::NotUnbonded),
    }
    if let StakeAccountType::VESTING(v) = stake_account.account_type {
        if !is_fully_vested(now, v.cliff_date, v.vesting_duration) {
            return Err(StakingError::NotVested);
        }
    }
    transfer_sol(stake_account_lamports, owner_lamports, *stake_account_lamports)?;
    Ok(CloseAccount { account: custody.key, destination: *to })
}

/// Moves `amount` of native balance from the payer to the recipient.
pub fn transfer_sol(payer_balance: &mut u64, recipient_balance: &mut u64, amount: u64) -> (r: Result<(), StakingError>)
    ensures
        r is Ok <==> (amount <= *old(payer_balance) && *old(recipient_balance) + amount <= u64::MAX),
        r is Ok ==> *final(payer_balance) == *old(payer_balance) - amount && *final(recipient_balance)
            == *old(recipient_balance) + amount,
        r matches Err(e) ==> e == StakingError::InsufficientFunds && *final(payer_balance) == *old(payer_balance)
            && *final(recipient_balance) == *old(recipient_balance),
{
    if move_lamports(payer_balance, recipient_balance, amount) {
        Ok(())
    } else {
        Err(StakingError::InsufficientFunds)
    }
}

} // verus!

verus! {

/// The schedule requested for a new vesting stake account.
#[derive(Clone, Copy, Debug, PartialEq, Eq, Structural)]
pub struct CreateStakeAccountVestingData {
    pub cliff_date: u64,
    pub vesting_duration: u64,
}

/// The kind of stake account requested.
#[derive(Clone, Copy, Debug, PartialEq, Eq, Structural)]
pub enum CreateStakeAccountType {
    NORMAL,
    VESTING(CreateStakeAccountVestingData),
}

impl Default for CreateStakeAccountType {
    fn default() -> (r: CreateStakeAccountType)
        ensures
            r == CreateStakeAccountType::NORMAL,
    {
        CreateStakeAccountType::NORMAL
    }
}

/// What the creator of a stake account supplies.
#[derive(Clone, Copy, Debug)]
pub struct CreateStakeAccountData {
    pub owner: Address,
    pub account_type: CreateStakeAccountType,
}

/// The first check that creating a stake account fails, if any.
pub open spec fn create_stake_account_refusal(
    program_id: Address,
    config: ConfigData,
    custody: TokenAccount,
) -> Option<StakingError> {
    if !is_stake_custody_signer(program_id, custody.owner) {
        Some(StakingError::InvalidOwner)
    } else if custody.delegate is Some {
        Some(StakingError::TokenAccountHasDelegation)
    } else if custody.close_authority is Some {
        Some(StakingError::TokenAccountHasDelegation)
    } else if custody.state != TokenAccountState::Initialized {
        Some(StakingError::InvalidTokenAccountState)
    } else if config.staking_token.key() != custody.mint.key() {
        Some(StakingError::WrongMint)
    } else {
        None
    }
}

/// The record of a new stake account over `custody`: unbonded, without
/// shares, a vesting one locking the custody's current balance.
pub open spec fn new_stake_account(custody: TokenAccount, data: CreateStakeAccountData) -> StakeAccountData {
    StakeAccountData {
        owner: data.owner,
        custody_account: custody.key,
        account_type: match data.account_type {
            CreateStakeAccountType::NORMAL => StakeAccountType::TOKEN,
            CreateStakeAccountType::VESTING(v) => StakeAccountType::VESTING(
                VestingData {
                    initial_balance: custody.amount,
                    cliff_date: v.cliff_date,
                    vesting_duration: v.vesting_duration,
                },
            ),
        },
        account_state: StakeAccountState::UNBONDED,
        shares: 0,
    }
}

/// Creates a stake account over an already funded custody token account. The
/// custody must belong to the program's custody signer, have no delegate and
/// no close authority, be usable, and hold the staking token.
pub fn create_stake_account(
    program_id: &Address,
    config: &ConfigData,
    custody: &TokenAccount,
    data: &CreateStakeAccountData,
) -> (r: Result<StakeAccountData, StakingError>)
    ensures
        match r {
            Ok(a) => create_stake_account_refusal(*program_id, *config, *custody) is None && a
                == new_stake_account(*custody, *data) && a.well_formed(),
            Err(e) => create_stake_account_refusal(*program_id, *config, *custody) == Some(e),
        },
{
    if !verify_labelled(STAKE_ACCOUNT_CUSTODY_SEED, program_id, &custody.owner) {
        return Err(StakingError::InvalidOwner);
    }
    if custody.delegate.is_some() {
        return Err(StakingError::TokenAccountHasDelegation);
    }
    if custody.close_authority.is_some() {
        return Err(StakingError::TokenAccountHasDelegation);
    }
    if custody.state != TokenAccountState::Initialized {
        return Err(StakingError::InvalidTokenAccountState);
    }
    if !config.staking_token.same(&custody.mint) {
        return Err(StakingError::WrongMint);
    }
    let account_type = match data.account_type {
        CreateStakeAccountType::NORMAL => StakeAccountType::TOKEN,
        CreateStakeAccountType::VESTING(v) => StakeAccountType::VESTING(
            VestingData {
                initial_balance: custody.amount,
                cliff_date: v.cliff_date,
                vesting_duration: v.vesting_duration,
            },
        ),
    };
    Ok(
        StakeAccountData {
            owner: data.owner,
            custody_account: custody.key,
            account_type,
            account_state: StakeAccountState::UNBONDED,
            shares: 0,
        },
    )
}

} // verus!
