//! A whole deployment: the pool and the ledger of its stakes, kept together so
//! that the pool's total is at all times the sum of what the users have staked.
//!
//! The operations are those of [`crate::operations`], each on the pool and on
//! the record of the user it names. As there, an operation that succeeds
//! returns the transfer that belongs to it, and the change and the transfer
//! form one unit. A caller whose transfer may fail learns it beforehand: the
//! same operation of [`crate::operations`] on the pool and on the user's
//! record, which [`StakingService::pool`] and [`StakingService::stake_of`]
//! hand out, returns the same transfer and changes nothing here.

use vstd::prelude::*;
use crate::error::StakingError;
use crate::identity::Identity;
use crate::ledger::{LedgerView, StakeLedger};
use crate::operations::{
    add_rewards,
    claim_rewards,
    claimed,
    funded,
    initialize_pool,
    initialized,
    stake,
    staked,
    unstake,
    unstaked,
    AddRewards,
    ClaimRewards,
    InitializePool,
    Stake,
    Unstake,
};
use crate::pool::Pool;
use crate::stake::UserStake;
use crate::transfer::Transfer;

verus! {

/// One request to a deployment, as the laws about runs of requests speak of it.
pub enum Operation {
    /// Make the pool.
    Initialize {
        authority: Identity,
        reward_mint: Identity,
        reward_vault: Identity,
        reward_rate: u64,
        lock_period: i64,
    },
    /// Stake `amount` for `user`.
    Stake { user: Identity, amount: u64, now: i64 },
    /// Claim, on behalf of `caller`, the reward of the stake of `owner`.
    ClaimRewards { caller: Identity, owner: Identity, now: i64 },
    /// Withdraw, on behalf of `caller`, the stake of `owner`.
    Unstake { caller: Identity, owner: Identity, now: i64 },
    /// Fund the reward vault out of what `caller` holds.
    AddRewards { caller: Identity, amount: u64 },
}

/// What a deployment holds: the pool, once it is made, and the ledger.
#[verifier::ext_equal]
pub struct ServiceView {
    /// The pool; `None` until it is initialized.
    pub pool: Option<Pool>,
    /// The records of the users.
    pub ledger: LedgerView,
}

impl ServiceView {
    /// The deployment of the pool `pool_ref` before anything has happened.
    pub open spec fn empty(pool_ref: Identity) -> ServiceView {
        ServiceView { pool: None, ledger: LedgerView { pool: pool_ref, records: Seq::empty() } }
    }

    /// What the pool counts as staked: nothing while there is no pool.
    pub open spec fn staked_total(self) -> nat {
        match self.pool {
            Some(pool) => pool.total_staked as nat,
            None => 0,
        }
    }

    /// Conservation: the pool's total is the sum of the principal in all records.
    pub open spec fn conserved(self) -> bool {
        self.staked_total() == self.ledger.total()
    }

    /// The ledger is well-formed and the total is conserved.
    pub open spec fn wf(self) -> bool {
        self.ledger.wf() && self.conserved()
    }

    /// Whether `self` is `before` with `pool` as the pool and `record` as the
    /// record of its user, and every other user's record as it was.
    pub open spec fn follows(self, before: ServiceView, pool: Pool, record: UserStake) -> bool {
        &&& self.pool == Some(pool)
        &&& self.ledger.pool == before.ledger.pool
        &&& self.ledger.stake_of(record.user) == record
        &&& forall|other: Identity|
            other != record.user ==> self.ledger.stake_of(other) == before.ledger.stake_of(other)
    }

    /// The deployment after its pool is made, or why it is not made.
    pub open spec fn initialized(
        self,
        authority: Identity,
        reward_mint: Identity,
        reward_vault: Identity,
        reward_rate: u64,
        lock_period: i64,
    ) -> Result<ServiceView, StakingError> {
        match initialized(
            self.pool,
            authority,
            reward_mint,
            reward_vault,
            reward_rate,
            lock_period,
        ) {
            Ok(pool) => Ok(ServiceView { pool: Some(pool), ..self }),
            Err(e) => Err(e),
        }
    }

    /// The deployment after `user` stakes `amount` at `now`, with the transfer
    /// that belongs to it; or why nothing is staked.
    pub open spec fn staked(self, user: Identity, amount: u64, now: i64) -> Result<
        (ServiceView, Transfer),
        StakingError,
    >
        recommends
            self.pool is Some,
    {
        match staked(self.pool->0, self.ledger.pool, self.ledger.stake_of(user), user, amount, now) {
            Ok((pool, record, transfer)) => Ok(
                (ServiceView { pool: Some(pool), ledger: self.ledger.stored(record) }, transfer),
            ),
            Err(e) => Err(e),
        }
    }

    /// The deployment after `caller` claims at `now` the reward of the stake
    /// of `owner`, with the transfer that belongs to it; or why nothing is
    /// claimed.
    pub open spec fn claimed(self, caller: Identity, owner: Identity, now: i64) -> Result<
        (ServiceView, Transfer),
        StakingError,
    >
        recommends
            self.pool is Some,
    {
        match claimed(self.pool->0, self.ledger.stake_of(owner), caller, now) {
            Ok((pool, record, transfer)) => Ok(
                (ServiceView { pool: Some(pool), ledger: self.ledger.stored(record) }, transfer),
            ),
            Err(e) => Err(e),
        }
    }

    /// The deployment after `caller` withdraws at `now` the stake of `owner`,
    /// with the transfer that belongs to it; or why nothing is withdrawn.
    pub open spec fn unstaked(self, caller: Identity, owner: Identity, now: i64) -> Result<
        (ServiceView, Transfer),
        StakingError,
    >
        recommends
            self.pool is Some,
    {
        match unstaked(self.pool->0, self.ledger.stake_of(owner), caller, now) {
            Ok((pool, record, transfer)) => Ok(
                (ServiceView { pool: Some(pool), ledger: self.ledger.stored(record) }, transfer),
            ),
            Err(e) => Err(e),
        }
    }

    /// The deployment after one request: as the operation leaves it where it
    /// succeeds, and as it was where the operation refuses or there is no
    /// pool to act on.
    pub open spec fn step(self, operation: Operation) -> ServiceView {
        match operation {
            Operation::Initialize {
                authority,
                reward_mint,
                reward_vault,
                reward_rate,
                lock_period,
            } => match self.initialized(
                authority,
                reward_mint,
                reward_vault,
                reward_rate,
                lock_period,
            ) {
                Ok(next) => next,
                Err(_) => self,
            },
            Operation::Stake { user, amount, now } => match self.staked(user, amount, now) {
                Ok((next, _)) => if self.pool is Some {
                    next
                } else {
                    self
                },
                Err(_) => self,
            },
            Operation::ClaimRewards { caller, owner, now } => match self.claimed(
                caller,
                owner,
                now,
            ) {
                Ok((next, _)) => if self.pool is Some {
                    next
                } else {
                    self
                },
                Err(_) => self,
            },
            Operation::Unstake { caller, owner, now } => match self.unstaked(caller, owner, now) {
                Ok((next, _)) => if self.pool is Some {
                    next
                } else {
                    self
                },
                Err(_) => self,
            },
            Operation::AddRewards { caller, amount } => self,
        }
    }

    /// The deployment after a sequence of requests, one after the other.
    pub open spec fn run(self, operations: Seq<Operation>) -> ServiceView
        decreases operations.len(),
    {
        if operations.len() == 0 {
            self
        } else {
            self.run(operations.drop_last()).step(operations.last())
        }
    }

    /// A deposit keeps a well-formed deployment well-formed.
    pub proof fn lemma_staked(self, user: Identity, amount: u64, now: i64)
        requires
            self.wf(),
            self.pool is Some,
        ensures
            self.staked(user, amount, now) matches Ok(next) ==> next.0.wf() && next.0.pool is Some,
            staked(
                self.pool->0,
                self.ledger.pool,
                self.ledger.stake_of(user),
                user,
                amount,
                now,
            ) matches Ok(done) ==> done.1.user == user && self.staked(user, amount, now)->Ok_0.0.follows(
                self,
                done.0,
                done.1,
            ),
    {
        self.ledger.lemma_stake_of(user);
        match staked(self.pool->0, self.ledger.pool, self.ledger.stake_of(user), user, amount, now) {
            Ok((pool, record, transfer)) => {
                self.ledger.lemma_stored(record);
            },
            Err(e) => {},
        }
    }

    /// A claim keeps a well-formed deployment well-formed.
    pub proof fn lemma_claimed(self, caller: Identity, owner: Identity, now: i64)
        requires
            self.wf(),
            self.pool is Some,
        ensures
            self.claimed(caller, owner, now) matches Ok(next) ==> next.0.wf() && next.0.pool
                is Some,
            claimed(self.pool->0, self.ledger.stake_of(owner), caller, now) matches Ok(done)
                ==> done.1.user == owner && self.claimed(caller, owner, now)->Ok_0.0.follows(
                self,
                done.0,
                done.1,
            ),
    {
        self.ledger.lemma_stake_of(owner);
        match claimed(self.pool->0, self.ledger.stake_of(owner), caller, now) {
            Ok((pool, record, transfer)) => {
                self.ledger.lemma_stored(record);
            },
            Err(e) => {},
        }
    }

    /// A withdrawal keeps a well-formed deployment well-formed. In a
    /// well-formed deployment no record holds more than the pool counts, so a
    /// withdrawal is never refused with `ArithmeticUnderflow`, and the
    /// principal leaves the custody of this deployment's pool.
    pub proof fn lemma_unstaked(self, caller: Identity, owner: Identity, now: i64)
        requires
            self.wf(),
            self.pool is Some,
        ensures
            self.unstaked(caller, owner, now) matches Ok(next) ==> next.0.wf() && next.0.pool
                is Some && next.1.from == self.ledger.pool,
            self.unstaked(caller, owner, now) != Err::<(ServiceView, Transfer), StakingError>(
                StakingError::ArithmeticUnderflow,
            ),
            unstaked(self.pool->0, self.ledger.stake_of(owner), caller, now) matches Ok(done)
                ==> done.1.user == owner && self.unstaked(caller, owner, now)->Ok_0.0.follows(
                self,
                done.0,
                done.1,
            ),
    {
        self.ledger.lemma_stake_of(owner);
        match unstaked(self.pool->0, self.ledger.stake_of(owner), caller, now) {
            Ok((pool, record, transfer)) => {
                self.ledger.lemma_stored(record);
            },
            Err(e) => {},
        }
    }
}

/// The pool of a deployment, once it is made, and the stakes of its users.
#[derive(Clone, Debug, PartialEq, Eq)]
pub struct StakingService {
    /// The pool; `None` until it is initialized.
    pub pool: Option<Pool>,
    /// The records of the users. Its `pool` is the identity of this deployment's pool.
    pub ledger: StakeLedger,
}

impl View for StakingService {
    type V = ServiceView;

    open spec fn view(&self) -> ServiceView {
        ServiceView { pool: self.pool, ledger: self.ledger@ }
    }
}

impl StakingService {
    /// A deployment whose pool has the identity `pool_ref`: no pool yet, no stakes.
    pub fn new(pool_ref: Identity) -> (service: StakingService)
        ensures
            service@ == ServiceView::empty(pool_ref),
            service@.wf(),
    {
        StakingService { pool: None, ledger: StakeLedger::new(pool_ref) }
    }

    /// The pool, if it is made.
    pub fn pool(&self) -> (pool: Option<Pool>)
        ensures
            pool == self@.pool,
    {
        self.pool
    }

    /// The record of `user`: the one that is kept, or an inactive one.
    pub fn stake_of(&self, user: &Identity) -> (record: UserStake)
        requires
            self@.wf(),
        ensures
            record == self@.ledger.stake_of(*user),
    {
        self.ledger.get(user)
    }

    /// Makes the pool. Refuses with `AlreadyInitialized` where there is one.
    /// Either way there is a pool afterwards.
    pub fn initialize(
        &mut self,
        authority: Identity,
        reward_mint: Identity,
        reward_vault: Identity,
        reward_rate: u64,
        lock_period: i64,
    ) -> (outcome: Result<(), StakingError>)
        requires
            old(self)@.wf(),
        ensures
            final(self)@.wf(),
            final(self)@.pool is Some,
            match old(self)@.initialized(
                authority,
                reward_mint,
                reward_vault,
                reward_rate,
                lock_period,
            ) {
                Ok(next) => outcome is Ok && final(self)@ == next,
                Err(e) => outcome == Err::<(), StakingError>(e) && final(self)@ == old(self)@,
            },
    {
        let mut ctx = InitializePool { pool: self.pool, reward_mint, reward_vault, authority };
        match initialize_pool(&mut ctx, reward_rate, lock_period) {
            Ok(()) => {
                self.pool = ctx.pool;
                Ok(())
            },
            Err(e) => Err(e),
        }
    }

    /// Stakes `amount` for `user` at `now`, as [`stake`] does on the pool and
    /// on the user's record.
    pub fn stake(&mut self, user: Identity, amount: u64, now: i64) -> (outcome: Result<
        Transfer,
        StakingError,
    >)
        requires
            old(self)@.wf(),
            old(self)@.pool is Some,
            amount > 0,
        ensures
            final(self)@.wf(),
            final(self)@.pool is Some,
            match old(self)@.staked(user, amount, now) {
                Ok((next, transfer)) => outcome == Ok::<Transfer, StakingError>(transfer)
                    && final(self)@ == next,
                Err(e) => outcome == Err::<Transfer, StakingError>(e) && final(self)@ == old(self)@,
            },
            staked(
                old(self)@.pool->0,
                old(self)@.ledger.pool,
                old(self)@.ledger.stake_of(user),
                user,
                amount,
                now,
            ) matches Ok(done) ==> final(self)@.follows(old(self)@, done.0, done.1),
    {
        proof {
            self@.ledger.lemma_stake_of(user);
            self@.lemma_staked(user, amount, now);
        }
        let mut ctx = Stake {
            pool: self.pool.unwrap(),
            pool_ref: self.ledger.pool,
            user_stake: self.ledger.get(&user),
            user,
        };
        match stake(&mut ctx, amount, now) {
            Ok(transfer) => {
                self.pool = Some(ctx.pool);
                self.ledger.store(ctx.user_stake);
                Ok(transfer)
            },
            Err(e) => Err(e),
        }
    }

    /// Claims at `now`, on behalf of `caller`, the reward of the stake of
    /// `owner`, as [`claim_rewards`] does on the pool and on that record.
    /// Refuses with `Unauthorized` where `caller` is not `owner`.
    pub fn claim_rewards(&mut self, caller: Identity, owner: Identity, now: i64) -> (outcome: Result<
        Transfer,
        StakingError,
    >)
        requires
            old(self)@.wf(),
            old(self)@.pool is Some,
        ensures
            final(self)@.wf(),
            final(self)@.pool is Some,
            match old(self)@.claimed(caller, owner, now) {
                Ok((next, transfer)) => outcome == Ok::<Transfer, StakingError>(transfer)
                    && final(self)@ == next,
                Err(e) => outcome == Err::<Transfer, StakingError>(e) && final(self)@ == old(self)@,
            },
            claimed(old(self)@.pool->0, old(self)@.ledger.stake_of(owner), caller, now) matches Ok(
                done,
            ) ==> final(self)@.follows(old(self)@, done.0, done.1),
    {
        proof {
            self@.ledger.lemma_stake_of(owner);
            self@.lemma_claimed(caller, owner, now);
        }
        let mut ctx = ClaimRewards {
            pool: self.pool.unwrap(),
            user_stake: self.ledger.get(&owner),
            user: caller,
        };
        match claim_rewards(&mut ctx, now) {
            Ok(transfer) => {
                self.pool = Some(ctx.pool);
                self.ledger.store(ctx.user_stake);
                Ok(transfer)
            },
            Err(e) => Err(e),
        }
    }

    /// Withdraws at `now`, on behalf of `caller`, the stake of `owner`, as
    /// [`unstake`] does on the pool and on that record. Refuses with
    /// `Unauthorized` where `caller` is not `owner`. As the total is
    /// conserved, it never refuses with `ArithmeticUnderflow`.
    pub fn unstake(&mut self, caller: Identity, owner: Identity, now: i64) -> (outcome: Result<
        Transfer,
        StakingError,
    >)
        requires
            old(self)@.wf(),
            old(self)@.pool is Some,
        ensures
            final(self)@.wf(),
            final(self)@.pool is Some,
            outcome != Err::<Transfer, StakingError>(StakingError::ArithmeticUnderflow),
            match old(self)@.unstaked(caller, owner, now) {
                Ok((next, transfer)) => outcome == Ok::<Transfer, StakingError>(transfer)
                    && final(self)@ == next && transfer.from == old(self)@.ledger.pool,
                Err(e) => outcome == Err::<Transfer, StakingError>(e) && final(self)@ == old(self)@,
            },
            unstaked(old(self)@.pool->0, old(self)@.ledger.stake_of(owner), caller, now) matches Ok(
                done,
            ) ==> final(self)@.follows(old(self)@, done.0, done.1),
    {
        proof {
            self@.ledger.lemma_stake_of(owner);
            self@.lemma_unstaked(caller, owner, now);
        }
        let mut ctx = Unstake {
            pool: self.pool.unwrap(),
            user_stake: self.ledger.get(&owner),
            user: caller,
        };
        match unstake(&mut ctx, now) {
            Ok(transfer) => {
                self.pool = Some(ctx.pool);
                self.ledger.store(ctx.user_stake);
                Ok(transfer)
            },
            Err(e) => Err(e),
        }
    }

    /// Returns the transfer by which `caller` funds the reward vault, as
    /// [`add_rewards`] does. Nothing changes.
    pub fn add_rewards(&self, caller: Identity, amount: u64) -> (outcome: Result<
        Transfer,
        StakingError,
    >)
        requires
            self@.pool is Some,
        ensures
            outcome == funded(self@.pool->0, caller, amount),
    {
        let ctx = AddRewards { pool: self.pool.unwrap(), authority: caller };
        add_rewards(&ctx, amount)
    }
}

} // verus!
