//! Conversion between token amounts and proportional shares of a sub-pool.
//! Every conversion rounds down, so rounding leaves value in the pool.
use vstd::prelude::*;

verus! {

/// Shares minted for a deposit of `amount` into a sub-pool that has
/// `total_shares` outstanding against a balance of `balance` tokens, the
/// balance being read before the deposit arrives. An empty sub-pool mints one
/// share per token.
pub open spec fn deposit_shares(amount: int, total_shares: int, balance: int) -> int {
    if total_shares == 0 {
        amount
    } else {
        amount * total_shares / balance
    }
}

/// Whether the deposit conversion is defined and fits the 128-bit count.
pub open spec fn deposit_defined(amount: int, total_shares: int, balance: int) -> bool {
    total_shares == 0 || (balance > 0 && amount * total_shares <= u128::MAX)
}

/// Tokens paid for redeeming `shares` from a sub-pool holding `balance` tokens
/// against `total_shares` outstanding shares.
pub open spec fn share_value(shares: int, balance: int, total_shares: int) -> int {
    shares * balance / total_shares
}

/// Whether the redemption conversion is defined and its result fits a token amount.
pub open spec fn redemption_defined(shares: int, balance: int, total_shares: int) -> bool {
    total_shares > 0 && shares * balance <= u128::MAX && share_value(shares, balance, total_shares)
        <= u64::MAX
}

/// Shares minted for depositing `amount` tokens; `None` when the sub-pool has
/// shares but no balance, or when the product overflows 128 bits.
pub fn shares_for_deposit(amount: u64, total_shares: u128, balance: u64) -> (r: Option<u128>)
    ensures
        r is Some <==> deposit_defined(amount as int, total_shares as int, balance as int),
        r matches Some(s) ==> s == deposit_shares(amount as int, total_shares as int, balance as int),
{
    if total_shares == 0 {
        Some(amount as u128)
    } else if balance == 0 {
        None
    } else {
        match (amount as u128).checked_mul(total_shares) {
            Some(product) => Some(product / (balance as u128)),
            None => None,
        }
    }
}

/// Tokens paid for redeeming `shares`; `None` when no shares are outstanding,
/// when the product overflows 128 bits or the value exceeds a token amount.
pub fn value_of_shares(shares: u128, balance: u64, total_shares: u128) -> (r: Option<u64>)
    ensures
        r is Some <==> redemption_defined(shares as int, balance as int, total_shares as int),
        r matches Some(v) ==> v == share_value(shares as int, balance as int, total_shares as int),
{
    if total_shares == 0 {
        return None;
    }
    match shares.checked_mul(balance as u128) {
        Some(product) => {
            let value = product / total_shares;
            if value > u64::MAX as u128 {
                None
            } else {
                Some(value as u64)
            }
        },
        None => None,
    }
}

/// Redeeming a part of the outstanding shares never pays more than the
/// sub-pool holds.
pub proof fn lemma_value_bounded(shares: int, balance: int, total_shares: int)
    requires
        0 <= shares <= total_shares,
        0 < total_shares,
        0 <= balance,
    ensures
        0 <= share_value(shares, balance, total_shares) <= balance,
{
    assert(shares * balance <= total_shares * balance) by (nonlinear_arith)
        requires
            0 <= shares <= total_shares,
            0 <= balance,
    ;
    assert(0 <= shares * balance) by (nonlinear_arith)
        requires
            0 <= shares,
            0 <= balance,
    ;
    assert((total_shares * balance) / total_shares == balance) by (nonlinear_arith)
        requires
            0 < total_shares,
    ;
    vstd::arithmetic::div_mod::lemma_div_is_ordered(
        shares * balance,
        total_shares * balance,
        total_shares,
    );
    vstd::arithmetic::div_mod::lemma_div_pos_is_pos(shares * balance, total_shares);
}

} // verus!
