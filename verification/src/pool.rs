//! The pool: the one record that holds the terms of staking and the totals.

use vstd::prelude::*;
use crate::error::StakingError;
use crate::identity::Identity;

verus! {

/// The pool's record. `reward_rate` and `lock_period` are set when the pool is
/// made and no operation changes them.
#[derive(Clone, Copy, Debug, PartialEq, Eq)]
pub struct Pool {
    /// Who may fund the reward vault.
    pub authority: Identity,
    /// The asset that rewards are paid in.
    pub reward_mint: Identity,
    /// Where the rewards that are not yet paid out are held.
    pub reward_vault: Identity,
    /// Reward per unit staked per second, scaled by `RATE_SCALE`.
    pub reward_rate: u64,
    /// Seconds that must pass before a claim or a withdrawal.
    pub lock_period: i64,
    /// The sum of all principal that is staked.
    pub total_staked: u64,
    /// The sum of all rewards that were paid out.
    pub total_rewards_distributed: u64,
}

impl Pool {
    /// The pool as it is once `amount` more is staked.
    pub open spec fn deposited(self, amount: u64) -> Result<Pool, StakingError> {
        if self.total_staked + amount > u64::MAX {
            Err(StakingError::ArithmeticOverflow)
        } else {
            Ok(Pool { total_staked: (self.total_staked + amount) as u64, ..self })
        }
    }

    /// The pool as it is once `amount` of the principal has left.
    pub open spec fn withdrawn(self, amount: u64) -> Result<Pool, StakingError> {
        if amount > self.total_staked {
            Err(StakingError::ArithmeticUnderflow)
        } else {
            Ok(Pool { total_staked: (self.total_staked - amount) as u64, ..self })
        }
    }

    /// The pool as it is once `amount` more has been paid out in rewards.
    pub open spec fn distributed(self, amount: u64) -> Result<Pool, StakingError> {
        if self.total_rewards_distributed + amount > u64::MAX {
            Err(StakingError::ArithmeticOverflow)
        } else {
            Ok(
                Pool {
                    total_rewards_distributed: (self.total_rewards_distributed + amount) as u64,
                    ..self
                },
            )
        }
    }

    /// A pool with the given terms, nothing staked and nothing paid out.
    pub fn new(
        authority: Identity,
        reward_mint: Identity,
        reward_vault: Identity,
        reward_rate: u64,
        lock_period: i64,
    ) -> (pool: Pool)
        ensures
            pool == (Pool {
                authority,
                reward_mint,
                reward_vault,
                reward_rate,
                lock_period,
                total_staked: 0,
                total_rewards_distributed: 0,
            }),
    {
        Pool {
            authority,
            reward_mint,
            reward_vault,
            reward_rate,
            lock_period,
            total_staked: 0,
            total_rewards_distributed: 0,
        }
    }

    /// Adds `amount` to the staked total, or refuses with `ArithmeticOverflow`
    /// where the total would pass 64 bits.
    pub fn record_deposit(&mut self, amount: u64) -> (outcome: Result<(), StakingError>)
        ensures
            match old(self).deposited(amount) {
                Ok(next) => outcome is Ok && *final(self) == next,
                Err(e) => outcome == Err::<(), StakingError>(e) && *final(self) == *old(self),
            },
    {
        match self.total_staked.checked_add(amount) {
            Some(total) => {
                self.total_staked = total;
                Ok(())
            },
            None => Err(StakingError::ArithmeticOverflow),
        }
    }

    /// Takes `amount` off the staked total, or refuses with
    /// `ArithmeticUnderflow` where more would leave than is staked.
    pub fn record_withdrawal(&mut self, amount: u64) -> (outcome: Result<(), StakingError>)
        ensures
            match old(self).withdrawn(amount) {
                Ok(next) => outcome is Ok && *final(self) == next,
                Err(e) => outcome == Err::<(), StakingError>(e) && *final(self) == *old(self),
            },
    {
        match self.total_staked.checked_sub(amount) {
            Some(total) => {
                self.total_staked = total;
                Ok(())
            },
            None => Err(StakingError::ArithmeticUnderflow),
        }
    }

    /// Adds `amount` to the rewards paid out, or refuses with
    /// `ArithmeticOverflow` where the total would pass 64 bits.
    pub fn record_reward_distribution(&mut self, amount: u64) -> (outcome: Result<
        (),
        StakingError,
    >)
        ensures
            match old(self).distributed(amount) {
                Ok(next) => outcome is Ok && *final(self) == next,
                Err(e) => outcome == Err::<(), StakingError>(e) && *final(self) == *old(self),
            },
    {
        match self.total_rewards_distributed.checked_add(amount) {
            Some(total) => {
                self.total_rewards_distributed = total;
                Ok(())
            },
            None => Err(StakingError::ArithmeticOverflow),
        }
    }
}

} // verus!
