//! One user's stake record and the three changes it can undergo.

use vstd::prelude::*;
use crate::error::StakingError;
use crate::identity::Identity;
use crate::pool::Pool;
use crate::reward::{calculate_rewards, reward_verdict};

verus! {

/// What one user has staked in a pool. A record with `amount == 0` is
/// inactive: it holds no stake, and the next deposit starts it afresh.
#[derive(Clone, Copy, Debug, PartialEq, Eq)]
pub struct UserStake {
    /// Who staked.
    pub user: Identity,
    /// The pool that the stake is in.
    pub pool: Identity,
    /// The principal that is staked now.
    pub amount: u64,
    /// When principal was last deposited.
    pub stake_time: i64,
    /// When rewards were last claimed, or the first deposit if none were.
    pub last_claim_time: i64,
}

impl UserStake {
    /// The inactive record of `user` in `pool`.
    pub open spec fn fresh(user: Identity, pool: Identity) -> UserStake {
        UserStake { user, pool, amount: 0, stake_time: 0, last_claim_time: 0 }
    }

    /// Whether the record holds a stake.
    pub open spec fn active(self) -> bool {
        self.amount > 0
    }

    /// Whether at `now` the lock on claims has passed: it runs from the last claim.
    pub open spec fn claim_unlocked(self, lock_period: i64, now: i64) -> bool {
        now >= self.last_claim_time + lock_period
    }

    /// Whether at `now` the lock on withdrawal has passed: it runs from the last deposit.
    pub open spec fn withdrawal_unlocked(self, lock_period: i64, now: i64) -> bool {
        now >= self.stake_time + lock_period
    }

    /// The record after `user` deposits `amount` into it at `now`. An inactive
    /// record starts afresh; an active one grows, and its lock on withdrawal
    /// starts again for all of the principal.
    pub open spec fn deposited(self, user: Identity, pool: Identity, amount: u64, now: i64) -> Result<
        UserStake,
        StakingError,
    > {
        if !self.active() {
            Ok(UserStake { user, pool, amount, stake_time: now, last_claim_time: now })
        } else if self.amount + amount > u64::MAX {
            Err(StakingError::ArithmeticOverflow)
        } else {
            Ok(UserStake { amount: (self.amount + amount) as u64, stake_time: now, ..self })
        }
    }

    /// The record after a claim at `now` under the terms of `pool`, with the
    /// reward that is claimed; or why there is no claim.
    pub open spec fn claimed(self, pool: Pool, now: i64) -> Result<(UserStake, u64), StakingError> {
        if !self.active() {
            Err(StakingError::NoStakeFound)
        } else if !self.claim_unlocked(pool.lock_period, now) {
            Err(StakingError::LockPeriodNotMet)
        } else if now - self.last_claim_time > i64::MAX {
            Err(StakingError::ArithmeticOverflow)
        } else {
            match reward_verdict(self.amount, (now - self.last_claim_time) as i64, pool.reward_rate) {
                Err(e) => Err(e),
                Ok(reward) => if reward == 0 {
                    Err(StakingError::NoRewardsAvailable)
                } else {
                    Ok((UserStake { last_claim_time: now, ..self }, reward))
                },
            }
        }
    }

    /// The record after all of its principal is withdrawn at `now` under the
    /// terms of `pool`, with the principal that leaves; or why none leaves.
    pub open spec fn withdrawn(self, pool: Pool, now: i64) -> Result<(UserStake, u64), StakingError> {
        if !self.active() {
            Err(StakingError::NoStakeFound)
        } else if !self.withdrawal_unlocked(pool.lock_period, now) {
            Err(StakingError::LockPeriodNotMet)
        } else {
            Ok((UserStake { amount: 0, stake_time: 0, last_claim_time: 0, ..self }, self.amount))
        }
    }

    /// The inactive record of `user` in `pool`.
    pub fn new(user: Identity, pool: Identity) -> (record: UserStake)
        ensures
            record == UserStake::fresh(user, pool),
    {
        UserStake { user, pool, amount: 0, stake_time: 0, last_claim_time: 0 }
    }

    /// Whether the record holds a stake.
    pub fn is_active(&self) -> (active: bool)
        ensures
            active == self.active(),
    {
        self.amount > 0
    }

    /// Deposits `amount` for `user` at `now`. Refuses with
    /// `ArithmeticOverflow` where the principal would pass 64 bits.
    pub fn apply_deposit(&mut self, user: Identity, pool: Identity, amount: u64, now: i64) -> (outcome:
        Result<(), StakingError>)
        ensures
            match old(self).deposited(user, pool, amount, now) {
                Ok(next) => outcome is Ok && *final(self) == next,
                Err(e) => outcome == Err::<(), StakingError>(e) && *final(self) == *old(self),
            },
    {
        if self.amount == 0 {
            self.user = user;
            self.pool = pool;
            self.amount = amount;
            self.stake_time = now;
            self.last_claim_time = now;
            Ok(())
        } else {
            match self.amount.checked_add(amount) {
                Some(total) => {
                    self.amount = total;
                    self.stake_time = now;
                    Ok(())
                },
                None => Err(StakingError::ArithmeticOverflow),
            }
        }
    }

    /// Claims at `now` the reward that has accrued since the last claim, and
    /// returns it. Refuses, in this order: with `NoStakeFound` where the record
    /// is inactive; with `LockPeriodNotMet` before the lock has passed; with
    /// `ArithmeticOverflow` where the time since the last claim, or the
    /// reward, does not fit 64 bits; with `NoRewardsAvailable` where the
    /// reward is zero.
    pub fn apply_claim(&mut self, pool: &Pool, now: i64) -> (outcome: Result<u64, StakingError>)
        ensures
            match old(self).claimed(*pool, now) {
                Ok((next, reward)) => outcome == Ok::<u64, StakingError>(reward)
                    && *final(self) == next,
                Err(e) => outcome == Err::<u64, StakingError>(e) && *final(self) == *old(self),
            },
    {
        if self.amount == 0 {
            return Err(StakingError::NoStakeFound);
        }
        let unlocks: i128 = self.last_claim_time as i128 + pool.lock_period as i128;
        if (now as i128) < unlocks {
            return Err(StakingError::LockPeriodNotMet);
        }
        let elapsed: i128 = now as i128 - self.last_claim_time as i128;
        if elapsed > i64::MAX as i128 {
            return Err(StakingError::ArithmeticOverflow);
        }
        let reward: u64 = match calculate_rewards(self.amount, elapsed as i64, pool.reward_rate) {
            Ok(reward) => reward,
            Err(e) => {
                return Err(e);
            },
        };
        if reward == 0 {
            return Err(StakingError::NoRewardsAvailable);
        }
        self.last_claim_time = now;
        Ok(reward)
    }

    /// Withdraws all of the principal at `now`, and returns it. Refuses with
    /// `NoStakeFound` where the record is inactive, and with
    /// `LockPeriodNotMet` before the lock, which runs from the last deposit,
    /// has passed.
    pub fn apply_withdrawal(&mut self, pool: &Pool, now: i64) -> (outcome: Result<u64, StakingError>)
        ensures
            match old(self).withdrawn(*pool, now) {
                Ok((next, principal)) => outcome == Ok::<u64, StakingError>(principal)
                    && *final(self) == next,
                Err(e) => outcome == Err::<u64, StakingError>(e) && *final(self) == *old(self),
            },
    {
        if self.amount == 0 {
            return Err(StakingError::NoStakeFound);
        }
        let unlocks: i128 = self.stake_time as i128 + pool.lock_period as i128;
        if (now as i128) < unlocks {
            return Err(StakingError::LockPeriodNotMet);
        }
        let principal: u64 = self.amount;
        self.amount = 0;
        self.stake_time = 0;
        self.last_claim_time = 0;
        Ok(principal)
    }
}

} // verus!
