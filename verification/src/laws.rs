//! What holds of the operations, whatever the records and the times.

use vstd::prelude::*;
use crate::error::StakingError;
use crate::identity::Identity;
use crate::ledger::{lemma_sum_update, staked_sum};
use crate::operations::{claimed, staked, unstaked};
use crate::pool::Pool;
use crate::reward::{reward_due, reward_verdict};
use crate::service::{Operation, ServiceView};
use crate::stake::UserStake;
use crate::transfer::Transfer;

verus! {

/// Nothing is earned by an empty stake, nor before any time has passed.
pub proof fn reward_zero(amount: u64, elapsed: i64, rate: u64)
    requires
        elapsed <= 0 || amount == 0,
    ensures
        reward_due(amount as nat, elapsed as int, rate as nat) == 0,
        reward_verdict(amount, elapsed, rate) == Ok::<u64, StakingError>(0),
{
}

/// At a fixed rate and over a fixed time, a larger stake earns no less.
pub proof fn reward_monotonic_in_amount(less: nat, more: nat, elapsed: int, rate: nat)
    requires
        less <= more,
    ensures
        reward_due(less, elapsed, rate) <= reward_due(more, elapsed, rate),
{
    if elapsed > 0 && less > 0 {
        assert(less * elapsed * rate <= more * elapsed * rate) by (nonlinear_arith)
            requires
                0 <= less <= more,
                elapsed > 0,
                rate >= 0,
        ;
        assert(0 <= less * elapsed * rate) by (nonlinear_arith)
            requires
                0 <= less,
                elapsed > 0,
                rate >= 0,
        ;
    }
}

/// At a fixed rate, a stake earns no less over a longer time.
pub proof fn reward_monotonic_in_elapsed(amount: nat, shorter: int, longer: int, rate: nat)
    requires
        shorter <= longer,
    ensures
        reward_due(amount, shorter, rate) <= reward_due(amount, longer, rate),
{
    if shorter > 0 && amount > 0 {
        assert(amount * shorter * rate <= amount * longer * rate) by (nonlinear_arith)
            requires
                0 < shorter <= longer,
                amount >= 0,
                rate >= 0,
        ;
        assert(0 <= amount * shorter * rate) by (nonlinear_arith)
            requires
                0 < shorter,
                amount >= 0,
                rate >= 0,
        ;
    }
}

/// Where the reward of a stake over a time can be computed, so can the reward
/// of any smaller stake over any shorter time at the same rate, and it is no
/// larger.
pub proof fn reward_verdict_monotonic(
    less: u64,
    more: u64,
    shorter: i64,
    longer: i64,
    rate: u64,
)
    requires
        less <= more,
        shorter <= longer,
        reward_verdict(more, longer, rate) is Ok,
    ensures
        reward_verdict(less, shorter, rate) is Ok,
        reward_verdict(less, shorter, rate)->Ok_0 <= reward_verdict(more, longer, rate)->Ok_0,
{
    reward_monotonic_in_amount(less as nat, more as nat, shorter as int, rate as nat);
    reward_monotonic_in_elapsed(more as nat, shorter as int, longer as int, rate as nat);
}

/// A claim on an active record by its owner is refused with
/// `LockPeriodNotMet` at every time before the last claim plus the lock
/// period.
pub proof fn claim_is_locked(pool: Pool, user_stake: UserStake, now: i64)
    requires
        user_stake.active(),
        now < user_stake.last_claim_time + pool.lock_period,
    ensures
        user_stake.claimed(pool, now) == Err::<(UserStake, u64), StakingError>(
            StakingError::LockPeriodNotMet,
        ),
        claimed(pool, user_stake, user_stake.user, now) == Err::<
            (Pool, UserStake, Transfer),
            StakingError,
        >(StakingError::LockPeriodNotMet),
{
}

/// A withdrawal from an active record by its owner is refused with
/// `LockPeriodNotMet` at every time before the last deposit plus the lock
/// period.
pub proof fn withdrawal_is_locked(pool: Pool, user_stake: UserStake, now: i64)
    requires
        user_stake.active(),
        now < user_stake.stake_time + pool.lock_period,
    ensures
        user_stake.withdrawn(pool, now) == Err::<(UserStake, u64), StakingError>(
            StakingError::LockPeriodNotMet,
        ),
        unstaked(pool, user_stake, user_stake.user, now) == Err::<
            (Pool, UserStake, Transfer),
            StakingError,
        >(StakingError::LockPeriodNotMet),
{
}

/// A deposit onto an active record locks the whole of the principal again:
/// the record holds the sum, its lock runs from the new deposit, and until
/// that lock has passed nothing can be withdrawn.
pub proof fn top_up_relocks(
    pool: Pool,
    pool_ref: Identity,
    user_stake: UserStake,
    user: Identity,
    amount: u64,
    now: i64,
    later: i64,
)
    requires
        user_stake.active(),
        staked(pool, pool_ref, user_stake, user, amount, now) is Ok,
        later < now + pool.lock_period,
    ensures
        ({
            let (next_pool, next_stake, transfer) = staked(
                pool,
                pool_ref,
                user_stake,
                user,
                amount,
                now,
            )->Ok_0;
            &&& next_stake.amount == user_stake.amount + amount
            &&& next_stake.stake_time == now
            &&& next_stake.last_claim_time == user_stake.last_claim_time
            &&& next_stake.withdrawn(next_pool, later) == Err::<(UserStake, u64), StakingError>(
                StakingError::LockPeriodNotMet,
            )
        }),
{
}

/// A claim that follows a claim with no time between them is refused: with
/// `LockPeriodNotMet` where the lock period is positive, with
/// `NoRewardsAvailable` where it is not.
pub proof fn no_double_claim(pool: Pool, user_stake: UserStake, user: Identity, now: i64)
    requires
        claimed(pool, user_stake, user, now) is Ok,
    ensures
        ({
            let (next_pool, next_stake, transfer) = claimed(pool, user_stake, user, now)->Ok_0;
            let again = claimed(next_pool, next_stake, user, now);
            if pool.lock_period > 0 {
                again == Err::<(Pool, UserStake, Transfer), StakingError>(
                    StakingError::LockPeriodNotMet,
                )
            } else {
                again == Err::<(Pool, UserStake, Transfer), StakingError>(
                    StakingError::NoRewardsAvailable,
                )
            }
        }),
{
}

/// A deposit is refused if and only if the record's principal or the pool's
/// total would pass 64 bits, and then with `ArithmeticOverflow`.
pub proof fn stake_refused_iff_overflow(
    pool: Pool,
    pool_ref: Identity,
    user_stake: UserStake,
    user: Identity,
    amount: u64,
    now: i64,
)
    ensures
        staked(pool, pool_ref, user_stake, user, amount, now) is Err <==> (user_stake.amount
            + amount > u64::MAX || pool.total_staked + amount > u64::MAX),
        staked(pool, pool_ref, user_stake, user, amount, now) is Err ==> staked(
            pool,
            pool_ref,
            user_stake,
            user,
            amount,
            now,
        ) == Err::<(Pool, UserStake, Transfer), StakingError>(StakingError::ArithmeticOverflow),
{
}

/// A deposit adds to the pool's total what it adds to the record, which is
/// what its transfer moves.
pub proof fn stake_moves_principal(
    pool: Pool,
    pool_ref: Identity,
    user_stake: UserStake,
    user: Identity,
    amount: u64,
    now: i64,
)
    requires
        staked(pool, pool_ref, user_stake, user, amount, now) is Ok,
    ensures
        ({
            let (next_pool, next_stake, transfer) = staked(
                pool,
                pool_ref,
                user_stake,
                user,
                amount,
                now,
            )->Ok_0;
            &&& next_pool.total_staked - pool.total_staked == amount
            &&& next_stake.amount - user_stake.amount == amount
            &&& transfer.amount == amount
        }),
{
}

/// A withdrawal takes from the pool's total what it takes from the record,
/// which is what its transfer moves, and leaves the record inactive.
pub proof fn unstake_moves_principal(pool: Pool, user_stake: UserStake, user: Identity, now: i64)
    requires
        unstaked(pool, user_stake, user, now) is Ok,
    ensures
        ({
            let (next_pool, next_stake, transfer) = unstaked(pool, user_stake, user, now)->Ok_0;
            &&& pool.total_staked - next_pool.total_staked == user_stake.amount
            &&& next_stake.amount == 0
            &&& transfer.amount == user_stake.amount
        }),
{
}

/// A claim leaves the principal alone, in the pool and in the record, and
/// adds to the rewards paid out what its transfer moves.
pub proof fn claim_moves_reward(pool: Pool, user_stake: UserStake, user: Identity, now: i64)
    requires
        claimed(pool, user_stake, user, now) is Ok,
    ensures
        ({
            let (next_pool, next_stake, transfer) = claimed(pool, user_stake, user, now)->Ok_0;
            &&& next_pool.total_staked == pool.total_staked
            &&& next_stake.amount == user_stake.amount
            &&& next_pool.total_rewards_distributed - pool.total_rewards_distributed
                == transfer.amount
            &&& transfer.amount == reward_due(
                user_stake.amount as nat,
                now - user_stake.last_claim_time,
                pool.reward_rate as nat,
            )
            &&& transfer.amount > 0
        }),
{
}

/// Conservation, for the operations on records. Among any records whose
/// principal sums to the pool's total, let the pool and one of the records
/// undergo a deposit, a claim or a withdrawal: with the new record in the
/// place of the old, the principal in the records sums to the new pool's
/// total.
pub proof fn operations_conserve(
    pool: Pool,
    pool_ref: Identity,
    records: Seq<UserStake>,
    at: int,
    user: Identity,
    amount: u64,
    now: i64,
)
    requires
        0 <= at < records.len(),
        pool.total_staked == staked_sum(records),
    ensures
        staked(pool, pool_ref, records[at], user, amount, now) matches Ok(next)
            ==> next.0.total_staked == staked_sum(records.update(at, next.1)),
        claimed(pool, records[at], user, now) matches Ok(next) ==> next.0.total_staked
            == staked_sum(records.update(at, next.1)),
        unstaked(pool, records[at], user, now) matches Ok(next) ==> next.0.total_staked
            == staked_sum(records.update(at, next.1)),
{
    match staked(pool, pool_ref, records[at], user, amount, now) {
        Ok(next) => lemma_sum_update(records, at, next.1),
        Err(_) => {},
    }
    match claimed(pool, records[at], user, now) {
        Ok(next) => lemma_sum_update(records, at, next.1),
        Err(_) => {},
    }
    match unstaked(pool, records[at], user, now) {
        Ok(next) => lemma_sum_update(records, at, next.1),
        Err(_) => {},
    }
}

/// In a well-formed deployment a deposit is refused if and only if the pool's
/// total would pass 64 bits, and then with `ArithmeticOverflow`: no record
/// holds more than the pool counts.
pub proof fn deposit_refused_iff_total_overflows(
    service: ServiceView,
    user: Identity,
    amount: u64,
    now: i64,
)
    requires
        service.wf(),
        service.pool is Some,
    ensures
        service.staked(user, amount, now) is Err <==> service.staked_total() + amount > u64::MAX,
        service.staked(user, amount, now) is Err ==> service.staked(user, amount, now) == Err::<
            (ServiceView, Transfer),
            StakingError,
        >(StakingError::ArithmeticOverflow),
{
    service.ledger.lemma_stake_of(user);
}

/// Conservation, one request at a time: whatever is asked of a well-formed
/// deployment, and whether it is done or refused, the deployment is
/// well-formed after it, and so its pool's total is the sum of the principal
/// in its records.
pub proof fn step_conserves(service: ServiceView, operation: Operation)
    requires
        service.wf(),
    ensures
        service.step(operation).wf(),
        service.step(operation).conserved(),
{
    match operation {
        Operation::Initialize { .. } => {},
        Operation::Stake { user, amount, now } => {
            if service.pool is Some {
                service.lemma_staked(user, amount, now);
            }
        },
        Operation::ClaimRewards { caller, owner, now } => {
            if service.pool is Some {
                service.lemma_claimed(caller, owner, now);
            }
        },
        Operation::Unstake { caller, owner, now } => {
            if service.pool is Some {
                service.lemma_unstaked(caller, owner, now);
            }
        },
        Operation::AddRewards { .. } => {},
    }
}

/// Conservation, over every run: after any sequence of requests to a
/// well-formed deployment, and after every one of them on the way, the pool's
/// total is the sum of the principal in the records.
pub proof fn conservation(service: ServiceView, operations: Seq<Operation>)
    requires
        service.wf(),
    ensures
        service.run(operations).wf(),
        forall|done: int|
            0 <= done <= operations.len() ==> service.run(
                #[trigger] operations.take(done),
            ).conserved(),
{
    lemma_run_wf(service, operations);
    assert forall|done: int| 0 <= done <= operations.len() implies service.run(
        #[trigger] operations.take(done),
    ).conserved() by {
        lemma_run_wf(service, operations.take(done));
    }
}

/// A run keeps a well-formed deployment well-formed.
proof fn lemma_run_wf(service: ServiceView, operations: Seq<Operation>)
    requires
        service.wf(),
    ensures
        service.run(operations).wf(),
    decreases operations.len(),
{
    if operations.len() > 0 {
        lemma_run_wf(service, operations.drop_last());
        step_conserves(service.run(operations.drop_last()), operations.last());
    }
}

/// Conservation from the start: whatever has been asked of a deployment since
/// it was made, its pool's total is the sum of the principal in its records.
pub proof fn conservation_from_the_start(pool_ref: Identity, operations: Seq<Operation>)
    ensures
        ServiceView::empty(pool_ref).run(operations).conserved(),
{
    conservation(ServiceView::empty(pool_ref), operations);
}

/// While time does not run back, neither do the times of a record: a deposit
/// or a claim at a time that is not before the record's times leaves neither
/// of them earlier than it was.
pub proof fn times_do_not_run_back(
    pool: Pool,
    pool_ref: Identity,
    user_stake: UserStake,
    user: Identity,
    amount: u64,
    now: i64,
)
    requires
        now >= user_stake.stake_time,
        now >= user_stake.last_claim_time,
    ensures
        staked(pool, pool_ref, user_stake, user, amount, now) matches Ok(next) ==> {
            &&& next.1.stake_time >= user_stake.stake_time
            &&& next.1.last_claim_time >= user_stake.last_claim_time
        },
        claimed(pool, user_stake, user, now) matches Ok(next) ==> {
            &&& next.1.stake_time >= user_stake.stake_time
            &&& next.1.last_claim_time >= user_stake.last_claim_time
        },
{
}

/// No operation changes the terms of the pool: its authority, its reward
/// asset and vault, its rate and its lock period.
pub proof fn terms_are_fixed(
    pool: Pool,
    pool_ref: Identity,
    user_stake: UserStake,
    user: Identity,
    amount: u64,
    now: i64,
)
    ensures
        staked(pool, pool_ref, user_stake, user, amount, now) matches Ok(next) ==> same_terms(
            pool,
            next.0,
        ),
        claimed(pool, user_stake, user, now) matches Ok(next) ==> same_terms(pool, next.0),
        unstaked(pool, user_stake, user, now) matches Ok(next) ==> same_terms(pool, next.0),
{
}

/// Whether two states of a pool have the same terms.
pub open spec fn same_terms(before: Pool, after: Pool) -> bool {
    &&& after.authority == before.authority
    &&& after.reward_mint == before.reward_mint
    &&& after.reward_vault == before.reward_vault
    &&& after.reward_rate == before.reward_rate
    &&& after.lock_period == before.lock_period
}

} // verus!
