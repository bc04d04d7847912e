//! Moving the native balance that keeps a record alive.
use vstd::prelude::*;

verus! {

/// Moves `amount` from `payer` to `recipient`; refuses, changing nothing,
/// when the payer holds less or the recipient's balance would overflow.
pub fn move_lamports(payer: &mut u64, recipient: &mut u64, amount: u64) -> (r: bool)
    ensures
        r == (amount <= *old(payer) && *old(recipient) + amount <= u64::MAX),
        r ==> *final(payer) == *old(payer) - amount && *final(recipient) == *old(recipient) + amount,
        !r ==> *final(payer) == *old(payer) && *final(recipient) == *old(recipient),
{
    match payer.checked_sub(amount) {
        Some(left) => match recipient.checked_add(amount) {
            Some(received) => {
                *payer = left;
                *recipient = received;
                true
            },
            None => false,
        },
        None => false,
    }
}

} // verus!
