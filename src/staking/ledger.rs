//! Laws of the share ledger: what holds of a pool and the stake accounts
//! that hold its shares, across the operations that move shares.
use crate::address::Address;
use crate::shares::{deposit_shares, lemma_value_bounded, share_value};
use crate::staking::stake_account::{
    bond_minted, complete_unbond_refusal, unbond_remaining, unbond_value,
};
use crate::staking::stake_pool::{operator_cut, BPS_DENOMINATOR};
use crate::staking::error::StakingError;
use crate::staking::types::{StakeAccountData, StakeAccountState, StakePoolData, UnbondingData};
use crate::token::TokenAccount;
use vstd::prelude::*;

verus! {

/// The sum of `f` over `accounts`.
pub open spec fn total_of(accounts: Seq<StakeAccountData>, f: spec_fn(StakeAccountData) -> int) -> int
    decreases accounts.len(),
{
    if accounts.len() == 0 {
        0
    } else {
        total_of(accounts.drop_last(), f) + f(accounts.last())
    }
}

/// Shares that `accounts` hold in the active sub-pool of `pool_key`.
pub open spec fn bonded_total(accounts: Seq<StakeAccountData>, pool_key: Address) -> int {
    total_of(accounts, |a: StakeAccountData| a.bonded_shares_in(pool_key))
}

/// Shares that `accounts` hold in the deactivating sub-pool of `pool_key`.
pub open spec fn unbonding_total(accounts: Seq<StakeAccountData>, pool_key: Address) -> int {
    total_of(accounts, |a: StakeAccountData| a.unbonding_shares_in(pool_key))
}

/// The pool's share totals are exactly the shares its accounts hold.
pub open spec fn shares_conserved(pool_key: Address, pool: StakePoolData, accounts: Seq<StakeAccountData>) -> bool {
    &&& pool.total_shares == bonded_total(accounts, pool_key)
    &&& pool.total_shares_unbonding == unbonding_total(accounts, pool_key)
}

proof fn lemma_total_update(
    accounts: Seq<StakeAccountData>,
    i: int,
    a: StakeAccountData,
    f: spec_fn(StakeAccountData) -> int,
)
    requires
        0 <= i < accounts.len(),
    ensures
        total_of(accounts.update(i, a), f) == total_of(accounts, f) - f(accounts[i]) + f(a),
    decreases accounts.len(),
{
    if i == accounts.len() - 1 {
        assert(accounts.update(i, a).drop_last() =~= accounts.drop_last());
    } else {
        lemma_total_update(accounts.drop_last(), i, a, f);
        assert(accounts.update(i, a).drop_last() =~= accounts.drop_last().update(i, a));
    }
}

/// A change of one account, seen by both sums.
proof fn lemma_totals_update(accounts: Seq<StakeAccountData>, i: int, a: StakeAccountData, pool_key: Address)
    requires
        0 <= i < accounts.len(),
    ensures
        bonded_total(accounts.update(i, a), pool_key) == bonded_total(accounts, pool_key)
            - accounts[i].bonded_shares_in(pool_key) + a.bonded_shares_in(pool_key),
        unbonding_total(accounts.update(i, a), pool_key) == unbonding_total(accounts, pool_key)
            - accounts[i].unbonding_shares_in(pool_key) + a.unbonding_shares_in(pool_key),
{
    lemma_total_update(accounts, i, a, |x: StakeAccountData| x.bonded_shares_in(pool_key));
    lemma_total_update(accounts, i, a, |x: StakeAccountData| x.unbonding_shares_in(pool_key));
}

/// An operation that moves shares of one pool, as it acts on the pool and on
/// the account at `index` once it has passed its checks. `minted` is the
/// share count the operation computed from the balances it saw.
pub enum PoolOp {
    Bond { index: int, minted: nat },
    Unbond { index: int, minted: nat, unbonding_time: u64 },
    CompleteUnbond { index: int },
}

/// A pool and the stake accounts that may hold its shares.
pub struct Ledger {
    pub pool: StakePoolData,
    pub accounts: Seq<StakeAccountData>,
}

/// The ledger after `op` on the pool at `pool_key`, as the bond, unbond and
/// complete-unbond operations change it; a refused operation changes nothing.
pub open spec fn apply(pool_key: Address, l: Ledger, op: PoolOp) -> Ledger {
    match op {
        PoolOp::Bond { index, minted } => if 0 <= index < l.accounts.len()
            && l.accounts[index].account_state is UNBONDED && l.pool.total_shares + minted <= u128::MAX {
            Ledger {
                pool: l.pool.with_totals(l.pool.total_shares + minted, l.pool.total_shares_unbonding as int),
                accounts: l.accounts.update(
                    index,
                    l.accounts[index].entered(StakeAccountState::BONDED(pool_key), minted as int),
                ),
            }
        } else {
            l
        },
        PoolOp::Unbond { index, minted, unbonding_time } => if 0 <= index < l.accounts.len()
            && l.accounts[index].account_state is BONDED
            && l.accounts[index].account_state->BONDED_0.key() == pool_key.key()
            && l.accounts[index].shares <= l.pool.total_shares
            && l.pool.total_shares_unbonding + minted <= u128::MAX {
            Ledger {
                pool: l.pool.with_totals(
                    l.pool.total_shares - l.accounts[index].shares,
                    l.pool.total_shares_unbonding + minted,
                ),
                accounts: l.accounts.update(
                    index,
                    l.accounts[index].entered(
                        StakeAccountState::UNBONDING(
                            UnbondingData { pool: pool_key, unbonding_time, unbonding_shares: minted as u128 },
                        ),
                        0,
                    ),
                ),
            }
        } else {
            l
        },
        PoolOp::CompleteUnbond { index } => if 0 <= index < l.accounts.len()
            && l.accounts[index].account_state is UNBONDING
            && l.accounts[index].account_state->UNBONDING_0.pool.key() == pool_key.key()
            && l.accounts[index].account_state->UNBONDING_0.unbonding_shares <= l.pool.total_shares_unbonding {
            Ledger {
                pool: l.pool.with_totals(
                    l.pool.total_shares as int,
                    l.pool.total_shares_unbonding
                        - l.accounts[index].account_state->UNBONDING_0.unbonding_shares,
                ),
                accounts: l.accounts.update(
                    index,
                    l.accounts[index].entered(StakeAccountState::UNBONDED, 0),
                ),
            }
        } else {
            l
        },
    }
}

/// The ledger after the operations `ops`, in order.
pub open spec fn apply_all(pool_key: Address, l: Ledger, ops: Seq<PoolOp>) -> Ledger
    decreases ops.len(),
{
    if ops.len() == 0 {
        l
    } else {
        apply(pool_key, apply_all(pool_key, l, ops.drop_last()), ops.last())
    }
}

/// One operation keeps the pool's totals equal to the shares its accounts hold.
pub proof fn lemma_apply_conserves(pool_key: Address, l: Ledger, op: PoolOp)
    requires
        shares_conserved(pool_key, l.pool, l.accounts),
    ensures
        shares_conserved(pool_key, apply(pool_key, l, op).pool, apply(pool_key, l, op).accounts),
{
    let after = apply(pool_key, l, op);
    match op {
        PoolOp::Bond { index, minted } => {
            if after != l {
                lemma_totals_update(l.accounts, index, after.accounts[index], pool_key);
            }
        },
        PoolOp::Unbond { index, minted, unbonding_time } => {
            if after != l {
                lemma_totals_update(l.accounts, index, after.accounts[index], pool_key);
            }
        },
        PoolOp::CompleteUnbond { index } => {
            if after != l {
                lemma_totals_update(l.accounts, index, after.accounts[index], pool_key);
            }
        },
    }
}

/// Share conservation: through any sequence of bond, unbond and
/// complete-unbond operations on one pool, the pool's active total equals the
/// shares of the accounts bonded to it, and its deactivating total the
/// unbonding shares of the accounts leaving it.
pub proof fn lemma_share_conservation(pool_key: Address, l: Ledger, ops: Seq<PoolOp>)
    requires
        shares_conserved(pool_key, l.pool, l.accounts),
    ensures
        shares_conserved(pool_key, apply_all(pool_key, l, ops).pool, apply_all(pool_key, l, ops).accounts),
    decreases ops.len(),
{
    if ops.len() > 0 {
        lemma_share_conservation(pool_key, l, ops.drop_last());
        lemma_apply_conserves(pool_key, apply_all(pool_key, l, ops.drop_last()), ops.last());
    }
}

} // verus!

verus! {

proof fn lemma_deposit_nonnegative(amount: int, total_shares: int, balance: int)
    requires
        0 <= amount,
        0 <= total_shares,
        total_shares == 0 || 0 < balance,
    ensures
        deposit_shares(amount, total_shares, balance) >= 0,
{
    if total_shares != 0 {
        assert(amount * total_shares >= 0) by (nonlinear_arith)
            requires
                0 <= amount,
                0 <= total_shares,
        ;
        vstd::arithmetic::div_mod::lemma_div_pos_is_pos(amount * total_shares, balance);
    }
}

/// A bond that passed its checks changes the ledger as `PoolOp::Bond` with
/// the shares it minted: the pool and account it leaves are those that
/// `bond_stake_account` promises.
pub proof fn lemma_bond_is_pool_op(
    program_id: Address,
    l: Ledger,
    index: int,
    custody: TokenAccount,
    pool_key: Address,
    staking: TokenAccount,
    owner: Address,
)
    requires
        0 <= index < l.accounts.len(),
        crate::staking::stake_account::bond_refusal(program_id, l.accounts[index], custody, pool_key, l.pool,
            staking, owner) is None,
    ensures
        bond_minted(custody, l.pool, staking) >= 0,
        apply(pool_key, l, PoolOp::Bond { index, minted: bond_minted(custody, l.pool, staking) as nat })
            == (Ledger {
            pool: l.pool.with_totals(
                l.pool.total_shares + bond_minted(custody, l.pool, staking),
                l.pool.total_shares_unbonding as int,
            ),
            accounts: l.accounts.update(
                index,
                l.accounts[index].entered(
                    StakeAccountState::BONDED(pool_key),
                    bond_minted(custody, l.pool, staking),
                ),
            ),
        }),
{
    lemma_deposit_nonnegative(custody.amount as int, l.pool.total_shares as int, staking.amount as int);
}

/// An unbond that passed its checks changes the ledger as `PoolOp::Unbond`
/// with the deactivating shares it minted: the pool and account it leaves
/// are those that `unbond_stake_account` promises.
pub proof fn lemma_unbond_is_pool_op(
    program_id: Address,
    config_unbonding_time: u64,
    l: Ledger,
    index: int,
    pool_key: Address,
    staking: TokenAccount,
    deactivating: TokenAccount,
    owner: Address,
    now: u64,
)
    requires
        0 <= index < l.accounts.len(),
        crate::staking::stake_account::unbond_refusal(program_id, config_unbonding_time, l.accounts[index],
            pool_key, l.pool, staking, deactivating, owner, now) is None,
    ensures
        crate::staking::stake_account::unbond_minted(l.accounts[index], l.pool, staking, deactivating) >= 0,
        apply(
            pool_key,
            l,
            PoolOp::Unbond {
                index,
                minted: crate::staking::stake_account::unbond_minted(l.accounts[index], l.pool, staking,
                    deactivating) as nat,
                unbonding_time: (now + config_unbonding_time) as u64,
            },
        ) == (Ledger {
            pool: l.pool.with_totals(
                unbond_remaining(l.accounts[index], l.pool),
                l.pool.total_shares_unbonding + crate::staking::stake_account::unbond_minted(
                    l.accounts[index], l.pool, staking, deactivating),
            ),
            accounts: l.accounts.update(
                index,
                l.accounts[index].entered(
                    StakeAccountState::UNBONDING(UnbondingData {
                        pool: pool_key,
                        unbonding_time: (now + config_unbonding_time) as u64,
                        unbonding_shares: crate::staking::stake_account::unbond_minted(l.accounts[index],
                            l.pool, staking, deactivating) as u128,
                    }),
                    0,
                ),
            ),
        }),
{
    let a = l.accounts[index];
    assert(a.shares as int * staking.amount as int >= 0) by (nonlinear_arith)
        requires
            a.shares >= 0,
            staking.amount >= 0,
    ;
    vstd::arithmetic::div_mod::lemma_div_pos_is_pos(
        a.shares as int * staking.amount as int,
        l.pool.total_shares as int,
    );
    lemma_deposit_nonnegative(
        unbond_value(a, l.pool, staking),
        l.pool.total_shares_unbonding as int,
        deactivating.amount as int,
    );
}

/// A completion that passed its checks changes the ledger as
/// `PoolOp::CompleteUnbond`: the pool and account it leaves are those that
/// `complete_unbond_stake_account` promises.
pub proof fn lemma_complete_unbond_is_pool_op(
    program_id: Address,
    l: Ledger,
    index: int,
    custody: TokenAccount,
    pool_key: Address,
    deactivating: TokenAccount,
    owner: Address,
    now: u64,
)
    requires
        0 <= index < l.accounts.len(),
        complete_unbond_refusal(program_id, l.accounts[index], custody, pool_key, l.pool, deactivating,
            owner, now) is None,
    ensures
        apply(pool_key, l, PoolOp::CompleteUnbond { index }) == (Ledger {
            pool: l.pool.with_totals(
                l.pool.total_shares as int,
                l.pool.total_shares_unbonding
                    - l.accounts[index].account_state->UNBONDING_0.unbonding_shares,
            ),
            accounts: l.accounts.update(
                index,
                l.accounts[index].entered(StakeAccountState::UNBONDED, 0),
            ),
        }),
{
}

/// Bootstrap bonding: the first bond into a pool without shares mints one
/// share per deposited token, and the pool's total becomes the deposit.
pub proof fn lemma_bootstrap_bond(custody: TokenAccount, pool: StakePoolData, staking: TokenAccount)
    requires
        pool.total_shares == 0,
    ensures
        bond_minted(custody, pool, staking) == custody.amount,
        pool.total_shares + bond_minted(custody, pool, staking) == custody.amount,
{
}

/// Proportional payout: deposits `d1 > 0` then `d2` into an empty active
/// sub-pool mint `d1` and `d2` shares, and redeeming the first depositor's
/// shares then pays back exactly `d1`.
pub proof fn lemma_payout_after_two_bonds(d1: int, d2: int)
    requires
        0 < d1,
        0 <= d2,
    ensures
        deposit_shares(d1, 0, 0) == d1,
        deposit_shares(d2, d1, d1) == d2,
        share_value(d1, d1 + d2, d1 + d2) == d1,
{
    assert(d2 * d1 / d1 == d2) by (nonlinear_arith)
        requires
            d1 > 0,
    ;
    assert(d1 * (d1 + d2) / (d1 + d2) == d1) by (nonlinear_arith)
        requires
            d1 + d2 > 0,
    ;
}

/// Shares `s` bought with `deposit` tokens are never worth more than the
/// deposit while the pool's price is that of `s * balance <= deposit *
/// total_shares`: a redemption then pays at most the deposit, and the
/// rounding loss stays in the pool.
pub proof fn lemma_payout_bounded_by_deposit(s: int, deposit: int, balance: int, total_shares: int)
    requires
        0 < total_shares,
        0 <= s,
        0 <= balance,
        s * balance <= deposit * total_shares,
    ensures
        share_value(s, balance, total_shares) <= deposit,
        balance - share_value(s, balance, total_shares) >= balance - deposit,
{
    assert((deposit * total_shares) / total_shares == deposit) by (nonlinear_arith)
        requires
            0 < total_shares,
    ;
    vstd::arithmetic::div_mod::lemma_div_is_ordered(s * balance, deposit * total_shares, total_shares);
}

/// Bonding `deposit` tokens into a sub-pool that holds `balance > 0` tokens
/// against `total_shares > 0` shares mints shares whose worth, at the price
/// right after the bond, is at most the deposit.
pub proof fn lemma_bond_price_bound(deposit: int, balance: int, total_shares: int)
    requires
        0 <= deposit,
        0 < balance,
        0 < total_shares,
    ensures
        deposit_shares(deposit, total_shares, balance) * (balance + deposit) <= deposit * (total_shares
            + deposit_shares(deposit, total_shares, balance)),
{
    let s = deposit_shares(deposit, total_shares, balance);
    vstd::arithmetic::div_mod::lemma_fundamental_div_mod(deposit * total_shares, balance);
    vstd::arithmetic::div_mod::lemma_mod_pos_bound(deposit * total_shares, balance);
    assert(s * balance <= deposit * total_shares);
    assert(s * (balance + deposit) <= deposit * (total_shares + s)) by (nonlinear_arith)
        requires
            s * balance <= deposit * total_shares,
    ;
}

/// A later bond without rounding loss (its `minted` shares are worth exactly
/// its `added` tokens) keeps an earlier holding's worth within its deposit.
pub proof fn lemma_lossless_bond_keeps_bound(
    s: int,
    deposit: int,
    balance: int,
    total_shares: int,
    added: int,
    minted: int,
)
    requires
        0 < balance,
        0 <= s,
        0 <= deposit,
        0 <= added,
        s * balance <= deposit * total_shares,
        minted * balance == added * total_shares,
    ensures
        s * (balance + added) <= deposit * (total_shares + minted),
{
    assert(s * added * balance <= deposit * minted * balance) by (nonlinear_arith)
        requires
            s * balance <= deposit * total_shares,
            minted * balance == added * total_shares,
            0 <= added,
    ;
    assert(s * added <= deposit * minted) by (nonlinear_arith)
        requires
            s * added * balance <= deposit * minted * balance,
            0 < balance,
    ;
    assert(s * (balance + added) == s * balance + s * added) by (nonlinear_arith);
    assert(deposit * (total_shares + minted) == deposit * total_shares + deposit * minted) by (nonlinear_arith);
}

/// Reward non-dilution: a distribution of `rewards > 0` at a commission below
/// the whole adds a positive stakers' part to the active sub-pool while its
/// share total stays fixed, so all its shares together are worth strictly
/// more, and no holding is worth less.
pub proof fn lemma_reward_non_dilution(total_shares: int, balance: int, rewards: int, commission: int, shares: int)
    requires
        0 < total_shares,
        0 <= balance,
        0 < rewards,
        0 <= commission < BPS_DENOMINATOR,
        0 <= shares,
    ensures
        rewards - operator_cut(rewards, commission) > 0,
        share_value(total_shares, balance + (rewards - operator_cut(rewards, commission)), total_shares)
            > share_value(total_shares, balance, total_shares),
        share_value(shares, balance + (rewards - operator_cut(rewards, commission)), total_shares)
            >= share_value(shares, balance, total_shares),
{
    let cut = operator_cut(rewards, commission);
    assert(rewards * commission < rewards * 10000) by (nonlinear_arith)
        requires
            0 < rewards,
            commission < 10000,
    ;
    assert(rewards * 10000 / 10000 == rewards);
    vstd::arithmetic::div_mod::lemma_div_is_ordered(rewards * commission, rewards * 10000 - 1, 10000);
    assert((rewards * 10000 - 1) / 10000 < rewards) by (nonlinear_arith)
        requires
            0 < rewards,
    ;
    let grown = balance + (rewards - cut);
    assert(total_shares * grown / total_shares == grown) by (nonlinear_arith)
        requires
            0 < total_shares,
    ;
    assert(total_shares * balance / total_shares == balance) by (nonlinear_arith)
        requires
            0 < total_shares,
    ;
    assert(shares * balance <= shares * grown) by (nonlinear_arith)
        requires
            0 <= shares,
            balance <= grown,
    ;
    vstd::arithmetic::div_mod::lemma_div_is_ordered(shares * balance, shares * grown, total_shares);
}

/// Unbonding timer: for an unbonding account whose other checks pass,
/// completing before its unbonding time is refused as still unbonding, and
/// from that time on (the instant itself included) it is accepted.
pub proof fn lemma_unbonding_timer(
    program_id: Address,
    account: StakeAccountData,
    custody: TokenAccount,
    pool_key: Address,
    pool: StakePoolData,
    deactivating: TokenAccount,
    owner: Address,
    now: u64,
)
    requires
        account.owner.key() == owner.key(),
        crate::staking::accounts::is_deactivating_account(program_id, pool_key, deactivating.key),
        account.custody_account.key() == custody.key.key(),
        account.account_state is UNBONDING,
        account.account_state->UNBONDING_0.pool.key() == pool_key.key(),
        account.account_state->UNBONDING_0.unbonding_shares <= pool.total_shares_unbonding,
        0 < pool.total_shares_unbonding,
        account.account_state->UNBONDING_0.unbonding_shares * deactivating.amount <= u128::MAX,
    ensures
        now < account.account_state->UNBONDING_0.unbonding_time ==> complete_unbond_refusal(program_id,
            account, custody, pool_key, pool, deactivating, owner, now) == Some(StakingError::StillUnbonding),
        now >= account.account_state->UNBONDING_0.unbonding_time ==> complete_unbond_refusal(program_id,
            account, custody, pool_key, pool, deactivating, owner, now) is None,
{
    lemma_value_bounded(
        account.account_state->UNBONDING_0.unbonding_shares as int,
        deactivating.amount as int,
        pool.total_shares_unbonding as int,
    );
}

} // verus!
