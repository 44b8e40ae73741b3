//! How much reward a stake has earned.
//!
//! The rate is a fixed-point number: `RATE_SCALE` stands for one reward unit
//! per unit staked per second.

use vstd::prelude::*;
use crate::error::StakingError;

verus! {

/// The value of the rate that stands for 1.0.
pub const RATE_SCALE: u64 = 1_000_000_000;

/// The reward earned by `amount` units staked for `elapsed` seconds at `rate`:
/// the product of the three, divided by `RATE_SCALE` and rounded down. Nothing
/// is earned by an empty stake, nor before any time has passed.
pub open spec fn reward_due(amount: nat, elapsed: int, rate: nat) -> nat {
    if elapsed <= 0 || amount == 0 {
        0
    } else {
        ((amount * elapsed * rate) / (RATE_SCALE as int)) as nat
    }
}

/// What [`calculate_rewards`] returns: the reward that is due where it fits
/// 64 bits, and `ArithmeticOverflow` where it does not.
pub open spec fn reward_verdict(amount: u64, elapsed: i64, rate: u64) -> Result<u64, StakingError> {
    let due = reward_due(amount as nat, elapsed as int, rate as nat);
    if due <= u64::MAX {
        Ok(due as u64)
    } else {
        Err(StakingError::ArithmeticOverflow)
    }
}

/// The product of a positive amount, a positive time and a rate is not negative,
/// and is what the reward is the scaled quotient of.
proof fn lemma_product_bounds(amount: nat, elapsed: int, rate: nat)
    requires
        elapsed > 0,
    ensures
        0 <= amount * elapsed,
        0 <= amount * elapsed * rate,
        reward_due(amount, elapsed, rate) == (amount * elapsed * rate) / (RATE_SCALE as int),
{
    assert(0 <= amount * elapsed) by (nonlinear_arith)
        requires
            elapsed > 0,
            amount >= 0,
    ;
    let held: int = amount * elapsed;
    assert(0 <= held * rate) by (nonlinear_arith)
        requires
            held >= 0,
            rate >= 0,
    ;
    if amount == 0 {
        assert(amount * elapsed == 0) by (nonlinear_arith)
            requires
                amount == 0,
        ;
        assert(held * rate == 0) by (nonlinear_arith)
            requires
                held == 0,
        ;
    }
}

/// Computes the reward earned by `stake_amount` over `time_staked` seconds at
/// `reward_rate`. The product is formed in 128 bits and never wraps; a reward
/// that does not fit 64 bits is refused. The result depends on the three
/// arguments alone.
pub fn calculate_rewards(stake_amount: u64, time_staked: i64, reward_rate: u64) -> (reward: Result<
    u64,
    StakingError,
>)
    ensures
        reward == reward_verdict(stake_amount, time_staked, reward_rate),
        time_staked <= 0 || stake_amount == 0 ==> reward == Ok::<u64, StakingError>(0),
{
    if time_staked <= 0 || stake_amount == 0 {
        return Ok(0);
    }
    proof {
        lemma_product_bounds(stake_amount as nat, time_staked as int, reward_rate as nat);
        assert(stake_amount * time_staked <= 0xffff_ffff_ffff_ffff * 0x7fff_ffff_ffff_ffff)
            by (nonlinear_arith)
            requires
                0 <= stake_amount <= 0xffff_ffff_ffff_ffff,
                0 < time_staked <= 0x7fff_ffff_ffff_ffff,
        ;
    }
    let held: u128 = (stake_amount as u128) * (time_staked as u128);
    match held.checked_mul(reward_rate as u128) {
        None => {
            assert(held * reward_rate > u128::MAX);
            assert((held * reward_rate) / (RATE_SCALE as int) > u64::MAX);
            Err(StakingError::ArithmeticOverflow)
        },
        Some(scaled) => {
            let due: u128 = scaled / (RATE_SCALE as u128);
            if due > u64::MAX as u128 {
                Err(StakingError::ArithmeticOverflow)
            } else {
                Ok(due as u64)
            }
        },
    }
}

} // verus!
