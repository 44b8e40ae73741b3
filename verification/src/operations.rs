//! The five operations, each on the records that it touches.
//!
//! An operation takes what it works on in a struct of its own: the records,
//! and the identity of whoever asks. The caller has made sure of that
//! identity; the operation decides what it may do.
//!
//! An operation checks everything before it changes anything: where it
//! refuses, the records are as they were. Where it succeeds, the records hold
//! the new state and the result is the transfer that belongs to the
//! operation. The change and the transfer form one unit: a caller whose
//! transfer does not go through keeps the records as they were before.

use vstd::prelude::*;
use crate::error::StakingError;
use crate::identity::Identity;
use crate::pool::Pool;
use crate::stake::UserStake;
use crate::transfer::{Asset, Transfer};

verus! {

/// What [`initialize_pool`] works on.
#[derive(Clone, Copy, Debug, PartialEq, Eq)]
pub struct InitializePool {
    /// The place where the one pool of the deployment is kept; `None` while there is none.
    pub pool: Option<Pool>,
    /// The asset that rewards will be paid in.
    pub reward_mint: Identity,
    /// Where the rewards that are not yet paid out will be held.
    pub reward_vault: Identity,
    /// Who makes the pool, and may fund its reward vault from then on.
    pub authority: Identity,
}

/// What [`stake`] works on.
#[derive(Clone, Copy, Debug, PartialEq, Eq)]
pub struct Stake {
    /// The pool.
    pub pool: Pool,
    /// The identity of the pool, which is also where staked principal is held.
    pub pool_ref: Identity,
    /// The record of the user in the pool.
    pub user_stake: UserStake,
    /// Who stakes.
    pub user: Identity,
}

/// What [`claim_rewards`] works on.
#[derive(Clone, Copy, Debug, PartialEq, Eq)]
pub struct ClaimRewards {
    /// The pool.
    pub pool: Pool,
    /// The record that the reward is claimed for.
    pub user_stake: UserStake,
    /// Who claims.
    pub user: Identity,
}

/// What [`unstake`] works on.
#[derive(Clone, Copy, Debug, PartialEq, Eq)]
pub struct Unstake {
    /// The pool.
    pub pool: Pool,
    /// The record that the principal is withdrawn from.
    pub user_stake: UserStake,
    /// Who withdraws.
    pub user: Identity,
}

/// What [`add_rewards`] works on.
#[derive(Clone, Copy, Debug, PartialEq, Eq)]
pub struct AddRewards {
    /// The pool.
    pub pool: Pool,
    /// Who funds the reward vault.
    pub authority: Identity,
}

/// What [`initialize_pool`] leaves in a place that held `existing`: the new
/// pool, with nothing staked and nothing paid out, unless a pool is there.
pub open spec fn initialized(
    existing: Option<Pool>,
    authority: Identity,
    reward_mint: Identity,
    reward_vault: Identity,
    reward_rate: u64,
    lock_period: i64,
) -> Result<Pool, StakingError> {
    if existing is Some {
        Err(StakingError::AlreadyInitialized)
    } else {
        Ok(
            Pool {
                authority,
                reward_mint,
                reward_vault,
                reward_rate,
                lock_period,
                total_staked: 0,
                total_rewards_distributed: 0,
            },
        )
    }
}

/// What [`stake`] does: the pool and the record after `user` stakes `amount`
/// at `now`, and the transfer of the principal from the user into the pool's
/// custody, which is the pool's own identity `pool_ref`.
pub open spec fn staked(
    pool: Pool,
    pool_ref: Identity,
    user_stake: UserStake,
    user: Identity,
    amount: u64,
    now: i64,
) -> Result<(Pool, UserStake, Transfer), StakingError> {
    match user_stake.deposited(user, pool_ref, amount, now) {
        Err(e) => Err(e),
        Ok(next_stake) => match pool.deposited(amount) {
            Err(e) => Err(e),
            Ok(next_pool) => Ok(
                (
                    next_pool,
                    next_stake,
                    Transfer { asset: Asset::Base, from: user, to: pool_ref, amount },
                ),
            ),
        },
    }
}

/// What [`claim_rewards`] does: the pool and the record after `user` claims at
/// `now`, and the transfer of the reward from the pool's vault to the user.
pub open spec fn claimed(pool: Pool, user_stake: UserStake, user: Identity, now: i64) -> Result<
    (Pool, UserStake, Transfer),
    StakingError,
> {
    if user_stake.user != user {
        Err(StakingError::Unauthorized)
    } else {
        match user_stake.claimed(pool, now) {
            Err(e) => Err(e),
            Ok((next_stake, reward)) => match pool.distributed(reward) {
                Err(e) => Err(e),
                Ok(next_pool) => Ok(
                    (
                        next_pool,
                        next_stake,
                        Transfer {
                            asset: Asset::Reward(pool.reward_mint),
                            from: pool.reward_vault,
                            to: user,
                            amount: reward,
                        },
                    ),
                ),
            },
        }
    }
}

/// What [`unstake`] does: the pool and the record after `user` withdraws at
/// `now`, and the transfer of the principal from the custody of the record's
/// pool back to the user.
pub open spec fn unstaked(pool: Pool, user_stake: UserStake, user: Identity, now: i64) -> Result<
    (Pool, UserStake, Transfer),
    StakingError,
> {
    if user_stake.user != user {
        Err(StakingError::Unauthorized)
    } else {
        match user_stake.withdrawn(pool, now) {
            Err(e) => Err(e),
            Ok((next_stake, principal)) => match pool.withdrawn(principal) {
                Err(e) => Err(e),
                Ok(next_pool) => Ok(
                    (
                        next_pool,
                        next_stake,
                        Transfer {
                            asset: Asset::Base,
                            from: user_stake.pool,
                            to: user,
                            amount: principal,
                        },
                    ),
                ),
            },
        }
    }
}

/// What [`add_rewards`] returns: the transfer of `amount` of the reward asset
/// from the authority into the pool's vault.
pub open spec fn funded(pool: Pool, authority: Identity, amount: u64) -> Result<
    Transfer,
    StakingError,
> {
    if pool.authority != authority {
        Err(StakingError::Unauthorized)
    } else {
        Ok(
            Transfer {
                asset: Asset::Reward(pool.reward_mint),
                from: authority,
                to: pool.reward_vault,
                amount,
            },
        )
    }
}

/// Makes the pool of a deployment, with `ctx.authority` as its authority.
/// Refuses with `AlreadyInitialized` where there is a pool.
pub fn initialize_pool(ctx: &mut InitializePool, reward_rate: u64, lock_period: i64) -> (outcome:
    Result<(), StakingError>)
    ensures
        match initialized(
            old(ctx).pool,
            old(ctx).authority,
            old(ctx).reward_mint,
            old(ctx).reward_vault,
            reward_rate,
            lock_period,
        ) {
            Ok(pool) => outcome is Ok && *final(ctx) == (InitializePool {
                pool: Some(pool),
                ..*old(ctx)
            }),
            Err(e) => outcome == Err::<(), StakingError>(e) && *final(ctx) == *old(ctx),
        },
{
    if ctx.pool.is_some() {
        return Err(StakingError::AlreadyInitialized);
    }
    ctx.pool = Some(
        Pool::new(ctx.authority, ctx.reward_mint, ctx.reward_vault, reward_rate, lock_period),
    );
    Ok(())
}

/// Stakes `amount` for `ctx.user` at `now`, and returns the transfer of the
/// principal into custody. Refuses with `ArithmeticOverflow` where the
/// record's principal or the pool's total would pass 64 bits.
pub fn stake(ctx: &mut Stake, amount: u64, now: i64) -> (outcome: Result<Transfer, StakingError>)
    requires
        amount > 0,
    ensures
        match staked(
            old(ctx).pool,
            old(ctx).pool_ref,
            old(ctx).user_stake,
            old(ctx).user,
            amount,
            now,
        ) {
            Ok((pool, user_stake, transfer)) => {
                &&& outcome == Ok::<Transfer, StakingError>(transfer)
                &&& *final(ctx) == (Stake { pool, user_stake, ..*old(ctx) })
            },
            Err(e) => outcome == Err::<Transfer, StakingError>(e) && *final(ctx) == *old(ctx),
        },
{
    let mut pool: Pool = ctx.pool;
    let mut user_stake: UserStake = ctx.user_stake;
    match user_stake.apply_deposit(ctx.user, ctx.pool_ref, amount, now) {
        Ok(()) => {},
        Err(e) => {
            return Err(e);
        },
    }
    match pool.record_deposit(amount) {
        Ok(()) => {},
        Err(e) => {
            return Err(e);
        },
    }
    ctx.pool = pool;
    ctx.user_stake = user_stake;
    Ok(Transfer { asset: Asset::Base, from: ctx.user, to: ctx.pool_ref, amount })
}

/// Claims for `ctx.user` at `now` the reward that the record has earned, and
/// returns the transfer of it out of the vault. Refuses, in this order: with
/// `Unauthorized` where the user does not own the record; as
/// [`UserStake::apply_claim`] does; with `ArithmeticOverflow` where the total
/// of rewards paid out would pass 64 bits.
pub fn claim_rewards(ctx: &mut ClaimRewards, now: i64) -> (outcome: Result<Transfer, StakingError>)
    ensures
        match claimed(old(ctx).pool, old(ctx).user_stake, old(ctx).user, now) {
            Ok((pool, user_stake, transfer)) => {
                &&& outcome == Ok::<Transfer, StakingError>(transfer)
                &&& *final(ctx) == (ClaimRewards { pool, user_stake, ..*old(ctx) })
            },
            Err(e) => outcome == Err::<Transfer, StakingError>(e) && *final(ctx) == *old(ctx),
        },
{
    if !ctx.user_stake.user.same(&ctx.user) {
        return Err(StakingError::Unauthorized);
    }
    let mut pool: Pool = ctx.pool;
    let mut user_stake: UserStake = ctx.user_stake;
    let reward: u64 = match user_stake.apply_claim(&ctx.pool, now) {
        Ok(reward) => reward,
        Err(e) => {
            return Err(e);
        },
    };
    match pool.record_reward_distribution(reward) {
        Ok(()) => {},
        Err(e) => {
            return Err(e);
        },
    }
    ctx.pool = pool;
    ctx.user_stake = user_stake;
    Ok(
        Transfer {
            asset: Asset::Reward(pool.reward_mint),
            from: pool.reward_vault,
            to: ctx.user,
            amount: reward,
        },
    )
}

/// Withdraws for `ctx.user` at `now` all of the record's principal, and
/// returns the transfer of it out of custody. Rewards that were not claimed
/// are not paid. Refuses, in this order: with `Unauthorized` where the user
/// does not own the record; as [`UserStake::apply_withdrawal`] does; with
/// `ArithmeticUnderflow` where the pool's total is less than the principal.
pub fn unstake(ctx: &mut Unstake, now: i64) -> (outcome: Result<Transfer, StakingError>)
    ensures
        match unstaked(old(ctx).pool, old(ctx).user_stake, old(ctx).user, now) {
            Ok((pool, user_stake, transfer)) => {
                &&& outcome == Ok::<Transfer, StakingError>(transfer)
                &&& *final(ctx) == (Unstake { pool, user_stake, ..*old(ctx) })
            },
            Err(e) => outcome == Err::<Transfer, StakingError>(e) && *final(ctx) == *old(ctx),
        },
{
    if !ctx.user_stake.user.same(&ctx.user) {
        return Err(StakingError::Unauthorized);
    }
    let mut pool: Pool = ctx.pool;
    let mut user_stake: UserStake = ctx.user_stake;
    let principal: u64 = match user_stake.apply_withdrawal(&ctx.pool, now) {
        Ok(principal) => principal,
        Err(e) => {
            return Err(e);
        },
    };
    match pool.record_withdrawal(principal) {
        Ok(()) => {},
        Err(e) => {
            return Err(e);
        },
    }
    ctx.pool = pool;
    ctx.user_stake = user_stake;
    Ok(Transfer { asset: Asset::Base, from: user_stake.pool, to: ctx.user, amount: principal })
}

/// Returns the transfer by which `ctx.authority` puts `amount` of the reward
/// asset into the pool's vault. No record changes: what the vault holds is
/// kept by whoever keeps the asset. Refuses with `Unauthorized` where
/// `ctx.authority` is not the pool's authority.
pub fn add_rewards(ctx: &AddRewards, amount: u64) -> (outcome: Result<Transfer, StakingError>)
    ensures
        outcome == funded(ctx.pool, ctx.authority, amount),
{
    if !ctx.pool.authority.same(&ctx.authority) {
        return Err(StakingError::Unauthorized);
    }
    Ok(
        Transfer {
            asset: Asset::Reward(ctx.pool.reward_mint),
            from: ctx.authority,
            to: ctx.pool.reward_vault,
            amount,
        },
    )
}

} // verus!
