//! Creating a vesting account, claiming what has vested, closing it once the
//! schedule has run, and handing it to a new owner.
use crate::address::Address;
use crate::derivation::{is_derived, labelled_key, program_address, verify_labelled};
use crate::lamports::move_lamports;
use crate::schedule::{claimable_amount, fully_vested, is_fully_vested, unlocked};
use crate::token::{CloseAccount, TokenAccount, TokenAccountState, Transfer};
use crate::vesting::error::VestingError;
use crate::vesting::types::VestingAccountData;
use vstd::prelude::*;
use vstd::string::StringSliceAdditionalSpecFns;

verus! {

pub const CUSTODY_SEED: &'static str = "custody";

/// Whether `signer` is the vesting program's custody signer.
pub open spec fn is_vesting_custody_signer(program_id: Address, signer: Address) -> bool {
    is_derived(seq![CUSTODY_SEED.spec_bytes()], program_id.key(), signer.key())
}

/// The vesting program's custody signer, if the search finds one.
pub fn custody_signer_address(program_id: &Address) -> (r: Option<Address>)
    ensures
        r matches Some(a) ==> is_vesting_custody_signer(*program_id, a),
        r is None ==> program_address(seq![CUSTODY_SEED.spec_bytes()], program_id.key()) is None,
{
    labelled_key(CUSTODY_SEED, program_id)
}

/// What the creator of a vesting account supplies.
#[derive(Clone, Copy, Debug)]
pub struct CreateVestingAccountData {
    pub owner: Address,
    pub cliff_date: u64,
    pub vesting_duration: u64,
}

/// The first check that creating a vesting account fails, if any.
pub open spec fn create_vesting_refusal(program_id: Address, custody: TokenAccount) -> Option<VestingError> {
    if !is_vesting_custody_signer(program_id, custody.owner) {
        Some(VestingError::InvalidOwner)
    } else if custody.delegate is Some {
        Some(VestingError::TokenAccountHasDelegation)
    } else if custody.close_authority is Some {
        Some(VestingError::TokenAccountHasDelegation)
    } else if custody.state != TokenAccountState::Initialized {
        Some(VestingError::InvalidTokenAccountState)
    } else {
        None
    }
}

/// Creates a vesting account that locks the whole current balance of
/// `custody`, which must belong to the custody signer, have no delegate and
/// no close authority, and be usable.
pub fn create_vesting_account(
    program_id: &Address,
    custody: &TokenAccount,
    data: &CreateVestingAccountData,
    now: u64,
) -> (r: Result<VestingAccountData, VestingError>)
    ensures
        match r {
            Ok(v) => create_vesting_refusal(*program_id, *custody) is None && v == (VestingAccountData {
                owner: data.owner,
                amount: custody.amount,
                token_account: custody.key,
                creation_date: now,
                cliff_date: data.cliff_date,
                vesting_duration: data.vesting_duration,
            }),
            Err(e) => create_vesting_refusal(*program_id, *custody) == Some(e),
        },
{
    if !verify_labelled(CUSTODY_SEED, program_id, &custody.owner) {
        return Err(VestingError::InvalidOwner);
    }
    if custody.delegate.is_some() {
        return Err(VestingError::TokenAccountHasDelegation);
    }
    if custody.close_authority.is_some() {
        return Err(VestingError::TokenAccountHasDelegation);
    }
    if custody.state != TokenAccountState::Initialized {
        return Err(VestingError::InvalidTokenAccountState);
    }
    Ok(
        VestingAccountData {
            owner: data.owner,
            amount: custody.amount,
            token_account: custody.key,
            creation_date: now,
            cliff_date: data.cliff_date,
            vesting_duration: data.vesting_duration,
        },
    )
}

/// What a claim at `now` may release from custody.
pub open spec fn vesting_claimable(account: VestingAccountData, custody: TokenAccount, now: u64) -> int {
    claimable_amount(
        now as int,
        account.cliff_date as int,
        account.vesting_duration as int,
        account.amount as int,
        custody.amount as int,
    )
}

/// The first check that a claim fails, if any.
pub open spec fn claim_refusal(
    program_id: Address,
    account: VestingAccountData,
    custody: TokenAccount,
    custody_signer: Address,
    owner: Address,
    now: u64,
) -> Option<VestingError> {
    if account.owner.key() != owner.key() {
        Some(VestingError::InvalidOwner)
    } else if account.token_account.key() != custody.key.key() {
        Some(VestingError::WrongMint)
    } else if !is_vesting_custody_signer(program_id, custody_signer) {
        Some(VestingError::InvalidDerivation)
    } else if now >= account.cliff_date && vesting_claimable(account, custody, now) < 0 {
        Some(VestingError::InsufficientFunds)
    } else {
        None
    }
}

/// Releases to `to` everything that has vested and not yet left custody.
/// Before the cliff nothing moves and the claim still succeeds.
pub fn claim_tokens(
    program_id: &Address,
    vesting_account: &VestingAccountData,
    to: &Address,
    custody: &TokenAccount,
    custody_signer: &Address,
    owner: &Address,
    now: u64,
) -> (r: Result<Option<Transfer>, VestingError>)
    ensures
        match r {
            Ok(None) => claim_refusal(*program_id, *vesting_account, *custody, *custody_signer, *owner, now) is None
                && now < vesting_account.cliff_date,
            Ok(Some(t)) => {
                &&& claim_refusal(*program_id, *vesting_account, *custody, *custody_signer, *owner, now) is None
                &&& now >= vesting_account.cliff_date
                &&& t.moves(custody.key, *to, vesting_claimable(*vesting_account, *custody, now))
                &&& t.amount <= custody.amount
            },
            Err(e) => claim_refusal(*program_id, *vesting_account, *custody, *custody_signer, *owner, now)
                == Some(e),
        },
{
    if !vesting_account.owner.same(owner) {
        return Err(VestingError::InvalidOwner);
    }
    if !vesting_account.token_account.same(&custody.key) {
        return Err(VestingError::WrongMint);
    }
    if !verify_labelled(CUSTODY_SEED, program_id, custody_signer) {
        return Err(VestingError::InvalidDerivation);
    }
    if now < vesting_account.cliff_date {
        return Ok(None);
    }
    let unlocked_amount = unlocked(
        now,
        vesting_account.cliff_date,
        vesting_account.vesting_duration,
        vesting_account.amount,
    );
    // unlocked - (initial - remaining), computed without leaving the naturals.
    let available = (unlocked_amount as u128) + (custody.amount as u128);
    if available < vesting_account.amount as u128 {
        return Err(VestingError::InsufficientFunds);
    }
    let amount = (available - vesting_account.amount as u128) as u64;
    Ok(Some(Transfer { source: custody.key, destination: *to, amount }))
}

/// The first check that closing a vesting account fails, if any.
pub open spec fn close_vesting_refusal(
    account: VestingAccountData,
    custody: TokenAccount,
    owner: Address,
    account_lamports: u64,
    owner_lamports: u64,
    now: u64,
) -> Option<VestingError> {
    if account.owner.key() != owner.key() {
        Some(VestingError::InvalidOwner)
    } else if account.token_account.key() != custody.key.key() {
        Some(VestingError::WrongMint)
    } else if !fully_vested(now as int, account.cliff_date as int, account.vesting_duration as int) {
        Some(VestingError::NotVested)
    } else if owner_lamports + account_lamports > u64::MAX {
        Some(VestingError::InsufficientFunds)
    } else {
        None
    }
}

/// Closes a vesting account whose schedule has run its course: the record's
/// reserve balance goes to the owner and the custody token account is closed
/// into `to`.
pub fn close_vesting_account(
    vesting_account: &VestingAccountData,
    vesting_account_lamports: &mut u64,
    to: &Address,
    custody: &TokenAccount,
    owner: &Address,
    owner_lamports: &mut u64,
    now: u64,
) -> (r: Result<CloseAccount, VestingError>)
    ensures
        match r {
            Ok(c) => {
                &&& close_vesting_refusal(*vesting_account, *custody, *owner, *old(vesting_account_lamports),
                    *old(owner_lamports), now) is None
                &&& *final(vesting_account_lamports) == 0
                &&& *final(owner_lamports) == *old(owner_lamports) + *old(vesting_account_lamports)
                &&& c.account == custody.key && c.destination == *to
            },
            Err(e) => {
                &&& close_vesting_refusal(*vesting_account, *custody, *owner, *old(vesting_account_lamports),
                    *old(owner_lamports), now) == Some(e)
                &&& *final(vesting_account_lamports) == *old(vesting_account_lamports)
                &&& *final(owner_lamports) == *old(owner_lamports)
            },
        },
{
    if !vesting_account.owner.same(owner) {
        return Err(VestingError::InvalidOwner);
    }
    if !vesting_account.token_account.same(&custody.key) {
        return Err(VestingError::WrongMint);
    }
    if !is_fully_vested(now, vesting_account.cliff_date, vesting_account.vesting_duration) {
        return Err(VestingError::NotVested);
    }
    transfer_sol(vesting_account_lamports, owner_lamports, *vesting_account_lamports)?;
    Ok(CloseAccount { account: custody.key, destination: *to })
}

/// Moves `amount` of native balance from the payer to the recipient.
pub fn transfer_sol(payer_balance: &mut u64, recipient_balance: &mut u64, amount: u64) -> (r: Result<(), VestingError>)
    ensures
        r is Ok <==> (amount <= *old(payer_balance) && *old(recipient_balance) + amount <= u64::MAX),
        r is Ok ==> *final(payer_balance) == *old(payer_balance) - amount && *final(recipient_balance)
            == *old(recipient_balance) + amount,
        r matches Err(e) ==> e == VestingError::InsufficientFunds && *final(payer_balance) == *old(payer_balance)
            && *final(recipient_balance) == *old(recipient_balance),
{
    if move_lamports(payer_balance, recipient_balance, amount) {
        Ok(())
    } else {
        Err(VestingError::InsufficientFunds)
    }
}

/// Hands a vesting account to `new_owner`; only its owner may.
pub fn transfer_ownership(
    vesting_account: &mut VestingAccountData,
    owner: &Address,
    new_owner: &Address,
) -> (r: Result<(), VestingError>)
    ensures
        r is Ok <==> old(vesting_account).owner.key() == owner.key(),
        r matches Err(e) ==> e == VestingError::InvalidOwner && *final(vesting_account) == *old(vesting_account),
        r is Ok ==> *final(vesting_account) == (VestingAccountData { owner: *new_owner, ..*old(vesting_account) }),
{
    if !vesting_account.owner.same(owner) {
        return Err(VestingError::InvalidOwner);
    }
    vesting_account.owner = *new_owner;
    Ok(())
}

} // verus!
