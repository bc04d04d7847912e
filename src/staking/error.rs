use vstd::prelude::*;

verus! {

/// Why a staking operation was refused. No operation changes any record when
/// it fails.
#[derive(Clone, Copy, Debug, PartialEq, Eq, Structural)]
pub enum StakingError {
    InvalidOwner,
    WrongMint,
    NotVested,
    InsufficientFunds,
    TokenAccountHasDelegation,
    InvalidTokenAccountState,
    NotUnbonded,
    NotUnbonding,
    NotBonded,
    InvalidPool,
    StillUnbonding,
    InvalidTokenAccount,
    StakePoolDeactivated,
    /// A supplied account is not the one derived from its seeds.
    InvalidDerivation,
    /// A checked step of the share arithmetic overflowed or had no shares to
    /// divide by.
    ArithmeticError,
    /// A commission above the whole (10000 basis points).
    InvalidCommission,
}

/// The numeric code of each error: its position in the list.
pub open spec fn error_code(e: StakingError) -> u64 {
    match e {
        StakingError::InvalidOwner => 0,
        StakingError::WrongMint => 1,
        StakingError::NotVested => 2,
        StakingError::InsufficientFunds => 3,
        StakingError::TokenAccountHasDelegation => 4,
        StakingError::InvalidTokenAccountState => 5,
        StakingError::NotUnbonded => 6,
        StakingError::NotUnbonding => 7,
        StakingError::NotBonded => 8,
        StakingError::InvalidPool => 9,
        StakingError::StillUnbonding => 10,
        StakingError::InvalidTokenAccount => 11,
        StakingError::StakePoolDeactivated => 12,
        StakingError::InvalidDerivation => 13,
        StakingError::ArithmeticError => 14,
        StakingError::InvalidCommission => 15,
    }
}

impl StakingError {
    /// The numeric code of the error, its position in the list above.
    pub fn code(&self) -> (r: u64)
        ensures
            r == error_code(*self),
    {
        match self {
            StakingError::InvalidOwner => 0,
            StakingError::WrongMint => 1,
            StakingError::NotVested => 2,
            StakingError::InsufficientFunds => 3,
            StakingError::TokenAccountHasDelegation => 4,
            StakingError::InvalidTokenAccountState => 5,
            StakingError::NotUnbonded => 6,
            StakingError::NotUnbonding => 7,
            StakingError::NotBonded => 8,
            StakingError::InvalidPool => 9,
            StakingError::StillUnbonding => 10,
            StakingError::InvalidTokenAccount => 11,
            StakingError::StakePoolDeactivated => 12,
            StakingError::InvalidDerivation => 13,
            StakingError::ArithmeticError => 14,
            StakingError::InvalidCommission => 15,
        }
    }
}

} // verus!
