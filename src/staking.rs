//! The staking program: stake pools with an active and a deactivating
//! sub-pool, stake accounts that bond into them, and reward distribution.
pub mod accounts;
pub mod error;
pub mod ledger;
pub mod stake_account;
pub mod stake_pool;
pub mod types;
