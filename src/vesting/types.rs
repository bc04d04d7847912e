use crate::address::Address;
use vstd::prelude::*;

verus! {

/// A vesting account: `amount` tokens locked in `token_account` and released
/// linearly over `vesting_duration` seconds after `cliff_date`.
#[derive(Clone, Copy, Debug)]
pub struct VestingAccountData {
    pub owner: Address,
    pub amount: u64,
    pub token_account: Address,
    pub creation_date: u64,
    pub cliff_date: u64,
    pub vesting_duration: u64,
}

} // verus!
