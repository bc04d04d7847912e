use vstd::prelude::*;

verus! {

/// Why a vesting operation was refused. No operation changes any record when
/// it fails.
#[derive(Clone, Copy, Debug, PartialEq, Eq, Structural)]
pub enum VestingError {
    InvalidOwner,
    WrongMint,
    NotVested,
    InsufficientFunds,
    TokenAccountHasDelegation,
    InvalidTokenAccountState,
    /// A supplied account is not the one derived from its seeds.
    InvalidDerivation,
}

/// The numeric code of each error: its position in the list.
pub open spec fn error_code(e: VestingError) -> u64 {
    match e {
        VestingError::InvalidOwner => 0,
        VestingError::WrongMint => 1,
        VestingError::NotVested => 2,
        VestingError::InsufficientFunds => 3,
        VestingError::TokenAccountHasDelegation => 4,
        VestingError::InvalidTokenAccountState => 5,
        VestingError::InvalidDerivation => 6,
    }
}

impl VestingError {
    /// The numeric code of the error, its position in the list above.
    pub fn code(&self) -> (r: u64)
        ensures
            r == error_code(*self),
    {
        match self {
            VestingError::InvalidOwner => 0,
            VestingError::WrongMint => 1,
            VestingError::NotVested => 2,
            VestingError::InsufficientFunds => 3,
            VestingError::TokenAccountHasDelegation => 4,
            VestingError::InvalidTokenAccountState => 5,
            VestingError::InvalidDerivation => 6,
        }
    }
}

} // verus!
