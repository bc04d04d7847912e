//! What the core reads of a token-ledger account, and the movements of tokens
//! that it asks the ledger to perform.
use crate::address::Address;
use vstd::prelude::*;

verus! {

/// Lifecycle of a token-ledger account.
#[derive(Clone, Copy, Debug, PartialEq, Eq, Structural)]
pub enum TokenAccountState {
    Uninitialized,
    Initialized,
    Frozen,
}

/// A token-ledger account as the core sees it: its own address and the fields
/// that the checks read.
#[derive(Clone, Copy, Debug)]
pub struct TokenAccount {
    pub key: Address,
    pub mint: Address,
    pub owner: Address,
    pub amount: u64,
    pub delegate: Option<Address>,
    pub close_authority: Option<Address>,
    pub state: TokenAccountState,
}

/// A movement of `amount` tokens from one ledger account to another, signed
/// by the program's custody authority.
#[derive(Clone, Copy, Debug)]
pub struct Transfer {
    pub source: Address,
    pub destination: Address,
    pub amount: u64,
}

impl Transfer {
    pub open spec fn moves(self, source: Address, destination: Address, amount: int) -> bool {
        self.source == source && self.destination == destination && self.amount == amount
    }
}

/// Closing a ledger account, its remaining tokens going to `destination`.
#[derive(Clone, Copy, Debug)]
pub struct CloseAccount {
    pub account: Address,
    pub destination: Address,
}

} // verus!
