//! A custodial staking ledger: one pool, one stake record per user, rewards
//! that accrue with time at a fixed rate, and a lock period before rewards can
//! be claimed or principal withdrawn.
//!
//! The crate holds the rules only. Moving an asset is the caller's business:
//! every operation that moves one returns the [`Transfer`] to carry out. The
//! time is the caller's too: an operation is told what time it is.
//!
//! - [`reward`]: how much a stake has earned.
//! - [`pool`] and [`stake`]: the two kinds of record, and the changes that
//!   each can undergo.
//! - [`operations`]: the five operations, on the records that they touch.
//! - [`ledger`] and [`service`]: the records of all users, and a whole
//!   deployment, in which the pool's total is the sum of what is staked.
//! - [`laws`]: what holds of the operations whatever they are given.

pub mod error;
pub mod identity;
pub mod laws;
pub mod ledger;
pub mod operations;
pub mod pool;
pub mod reward;
pub mod service;
pub mod stake;
pub mod transfer;

pub use error::StakingError;
pub use identity::Identity;
pub use ledger::StakeLedger;
pub use operations::{
    add_rewards, claim_rewards, initialize_pool, stake, unstake, AddRewards, ClaimRewards,
    InitializePool, Stake, Unstake,
};
pub use pool::Pool;
pub use reward::{calculate_rewards, RATE_SCALE};
pub use service::StakingService;
pub use stake::UserStake;
pub use transfer::{Asset, Transfer};
