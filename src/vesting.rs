//! The vesting program: a token balance held in custody and released on a
//! linear schedule after a cliff.
pub mod error;
pub mod types;
pub mod vesting_account;
