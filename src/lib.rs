//! Accounting core of a token-staking protocol: a share ledger over bonded and
//! unbonding sub-pools, the stake account lifecycle, reward distribution and a
//! linear vesting schedule, each stated and proved with Verus.
pub mod address;
pub mod derivation;
pub mod lamports;
pub mod schedule;
pub mod shares;
pub mod staking;
pub mod token;
pub mod vesting;
