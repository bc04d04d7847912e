//! Linear vesting: nothing is unlocked before the cliff, everything once the
//! vesting duration has elapsed after it, and a proportional share (rounded
//! down) in between.
use vstd::prelude::*;

verus! {

/// Tokens of `initial_balance` unlocked at time `now`.
pub open spec fn unlocked_amount(now: int, cliff_date: int, vesting_duration: int, initial_balance: int) -> int {
    if now < cliff_date {
        0
    } else if now >= cliff_date + vesting_duration {
        initial_balance
    } else {
        initial_balance * (now - cliff_date) / vesting_duration
    }
}

/// Whether the schedule has run its full course at time `now`.
pub open spec fn fully_vested(now: int, cliff_date: int, vesting_duration: int) -> bool {
    now >= cliff_date + vesting_duration
}

/// Tokens that may leave custody at `now`: what is unlocked less what has
/// already left, the latter being what the initial balance lacks in custody.
/// Negative when custody holds less than the schedule still locks.
pub open spec fn claimable_amount(
    now: int,
    cliff_date: int,
    vesting_duration: int,
    initial_balance: int,
    custody_balance: int,
) -> int {
    unlocked_amount(now, cliff_date, vesting_duration, initial_balance) - (initial_balance
        - custody_balance)
}

/// Tokens of `initial_balance` unlocked at time `now`.
pub fn unlocked(now: u64, cliff_date: u64, vesting_duration: u64, initial_balance: u64) -> (r: u64)
    ensures
        r == unlocked_amount(now as int, cliff_date as int, vesting_duration as int, initial_balance as int),
        r <= initial_balance,
{
    if now < cliff_date {
        return 0;
    }
    let elapsed: u64 = now - cliff_date;
    if elapsed >= vesting_duration {
        return initial_balance;
    }
    assert((initial_balance as int) * (elapsed as int) <= u128::MAX) by (nonlinear_arith)
        requires
            initial_balance <= u64::MAX,
            elapsed <= u64::MAX,
    ;
    let product: u128 = (initial_balance as u128) * (elapsed as u128);
    proof {
        lemma_partial_unlock_bounded(initial_balance as int, elapsed as int, vesting_duration as int);
    }
    (product / (vesting_duration as u128)) as u64
}

proof fn lemma_partial_unlock_bounded(initial_balance: int, elapsed: int, vesting_duration: int)
    requires
        0 <= initial_balance,
        0 <= elapsed < vesting_duration,
    ensures
        0 <= initial_balance * elapsed / vesting_duration <= initial_balance,
{
    assert(0 <= initial_balance * elapsed <= initial_balance * vesting_duration) by (nonlinear_arith)
        requires
            0 <= initial_balance,
            0 <= elapsed < vesting_duration,
    ;
    assert((initial_balance * vesting_duration) / vesting_duration == initial_balance) by (nonlinear_arith)
        requires
            0 < vesting_duration,
    ;
    vstd::arithmetic::div_mod::lemma_div_is_ordered(
        initial_balance * elapsed,
        initial_balance * vesting_duration,
        vesting_duration,
    );
    vstd::arithmetic::div_mod::lemma_div_pos_is_pos(initial_balance * elapsed, vesting_duration);
}

/// Whether the schedule has run its full course at time `now`.
pub fn is_fully_vested(now: u64, cliff_date: u64, vesting_duration: u64) -> (r: bool)
    ensures
        r == fully_vested(now as int, cliff_date as int, vesting_duration as int),
{
    now >= cliff_date && now - cliff_date >= vesting_duration
}

/// The unlocked amount never decreases as time passes, and never exceeds the
/// initial balance.
pub proof fn lemma_unlocked_monotonic(
    t1: int,
    t2: int,
    cliff_date: int,
    vesting_duration: int,
    initial_balance: int,
)
    requires
        t1 <= t2,
        0 <= vesting_duration,
        0 <= initial_balance,
    ensures
        0 <= unlocked_amount(t1, cliff_date, vesting_duration, initial_balance)
            <= unlocked_amount(t2, cliff_date, vesting_duration, initial_balance) <= initial_balance,
{
    if t1 >= cliff_date && t1 < cliff_date + vesting_duration {
        lemma_partial_unlock_bounded(initial_balance, t1 - cliff_date, vesting_duration);
        if t2 < cliff_date + vesting_duration {
            assert(initial_balance * (t1 - cliff_date) <= initial_balance * (t2 - cliff_date))
                by (nonlinear_arith)
                requires
                    0 <= initial_balance,
                    t1 <= t2,
            ;
            vstd::arithmetic::div_mod::lemma_div_is_ordered(
                initial_balance * (t1 - cliff_date),
                initial_balance * (t2 - cliff_date),
                vesting_duration,
            );
        }
    }
    if t2 >= cliff_date && t2 < cliff_date + vesting_duration {
        lemma_partial_unlock_bounded(initial_balance, t2 - cliff_date, vesting_duration);
    }
}

} // verus!
