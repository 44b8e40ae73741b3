use staking::{
    add_rewards, claim_rewards, initialize_pool, stake, unstake, AddRewards, Asset, ClaimRewards,
    Identity, InitializePool, Pool, Stake, StakingError, Transfer, Unstake, UserStake,
};

const AUTHORITY: u8 = 1;
const MINT: u8 = 2;
const VAULT: u8 = 3;
const POOL: u8 = 4;
const ALICE: u8 = 10;
const BOB: u8 = 11;
const ONE: u64 = 1_000_000_000;

fn who(tag: u8) -> Identity {
    Identity::new([tag; 32])
}

fn fresh_pool(reward_rate: u64, lock_period: i64) -> Pool {
    let mut ctx = InitializePool {
        pool: None,
        reward_mint: who(MINT),
        reward_vault: who(VAULT),
        authority: who(AUTHORITY),
    };
    initialize_pool(&mut ctx, reward_rate, lock_period).unwrap();
    ctx.pool.unwrap()
}

/// One pool and the records of its users, as a caller of the operations keeps them.
struct World {
    pool: Pool,
    alice: UserStake,
    bob: UserStake,
}

impl World {
    fn new(reward_rate: u64, lock_period: i64) -> World {
        World {
            pool: fresh_pool(reward_rate, lock_period),
            alice: UserStake::new(who(ALICE), who(POOL)),
            bob: UserStake::new(who(BOB), who(POOL)),
        }
    }

    fn record(&mut self, owner: u8) -> &mut UserStake {
        if owner == ALICE {
            &mut self.alice
        } else {
            &mut self.bob
        }
    }

    fn stake(&mut self, user: u8, amount: u64, now: i64) -> Result<Transfer, StakingError> {
        let mut ctx = Stake {
            pool: self.pool,
            pool_ref: who(POOL),
            user_stake: *self.record(user),
            user: who(user),
        };
        let before = ctx;
        let outcome = stake(&mut ctx, amount, now);
        if outcome.is_err() {
            assert_eq!(ctx, before);
        }
        assert_eq!(ctx.pool_ref, before.pool_ref);
        assert_eq!(ctx.user, before.user);
        self.pool = ctx.pool;
        *self.record(user) = ctx.user_stake;
        outcome
    }

    fn claim(&mut self, user: u8, owner: u8, now: i64) -> Result<Transfer, StakingError> {
        let mut ctx =
            ClaimRewards { pool: self.pool, user_stake: *self.record(owner), user: who(user) };
        let before = ctx;
        let outcome = claim_rewards(&mut ctx, now);
        if outcome.is_err() {
            assert_eq!(ctx, before);
        }
        assert_eq!(ctx.user, before.user);
        self.pool = ctx.pool;
        *self.record(owner) = ctx.user_stake;
        outcome
    }

    fn unstake(&mut self, user: u8, owner: u8, now: i64) -> Result<Transfer, StakingError> {
        let mut ctx = Unstake { pool: self.pool, user_stake: *self.record(owner), user: who(user) };
        let before = ctx;
        let outcome = unstake(&mut ctx, now);
        if outcome.is_err() {
            assert_eq!(ctx, before);
        }
        assert_eq!(ctx.user, before.user);
        self.pool = ctx.pool;
        *self.record(owner) = ctx.user_stake;
        outcome
    }
}

#[test]
fn initialize_pool_fills_an_empty_place() {
    let mut ctx = InitializePool {
        pool: None,
        reward_mint: who(MINT),
        reward_vault: who(VAULT),
        authority: who(AUTHORITY),
    };
    assert_eq!(initialize_pool(&mut ctx, 5, -7), Ok(()));
    assert_eq!(
        ctx,
        InitializePool {
            pool: Some(Pool {
                authority: who(AUTHORITY),
                reward_mint: who(MINT),
                reward_vault: who(VAULT),
                reward_rate: 5,
                lock_period: -7,
                total_staked: 0,
                total_rewards_distributed: 0,
            }),
            reward_mint: who(MINT),
            reward_vault: who(VAULT),
            authority: who(AUTHORITY),
        }
    );
}

#[test]
fn initialize_pool_twice_is_refused() {
    let mut ctx = InitializePool {
        pool: Some(fresh_pool(ONE, 100)),
        reward_mint: who(BOB),
        reward_vault: who(BOB),
        authority: who(BOB),
    };
    let before = ctx;
    assert_eq!(initialize_pool(&mut ctx, 1, 1), Err(StakingError::AlreadyInitialized));
    assert_eq!(ctx, before);
}

#[test]
fn stake_returns_the_transfer_into_custody() {
    let mut world = World::new(ONE, 100);
    assert_eq!(
        world.stake(ALICE, 1000, 0),
        Ok(Transfer { asset: Asset::Base, from: who(ALICE), to: who(POOL), amount: 1000 })
    );
    assert_eq!(world.pool.total_staked, 1000);
    assert_eq!(world.alice.amount, 1000);
    assert_eq!(world.bob.amount, 0);
}

#[test]
fn stake_on_unowned_record_makes_the_user_its_owner() {
    let mut ctx = Stake {
        pool: fresh_pool(ONE, 100),
        pool_ref: who(POOL),
        user_stake: UserStake::new(Identity::new([0; 32]), Identity::new([0; 32])),
        user: who(ALICE),
    };
    stake(&mut ctx, 5, 77).unwrap();
    assert_eq!(
        ctx.user_stake,
        UserStake { user: who(ALICE), pool: who(POOL), amount: 5, stake_time: 77, last_claim_time: 77 }
    );
    assert_eq!(ctx.pool.total_staked, 5);
}

#[test]
fn stake_past_64_bits_is_refused_and_changes_nothing() {
    let mut world = World::new(ONE, 100);
    world.stake(ALICE, u64::MAX - 10, 0).unwrap();
    let (pool, alice, bob) = (world.pool, world.alice, world.bob);

    // The pool's total would overflow, though the record's principal would not.
    assert_eq!(world.stake(BOB, 11, 5), Err(StakingError::ArithmeticOverflow));
    // Both would overflow.
    assert_eq!(world.stake(ALICE, 11, 5), Err(StakingError::ArithmeticOverflow));
    assert_eq!((world.pool, world.alice, world.bob), (pool, alice, bob));

    // What still fits goes through.
    assert!(world.stake(BOB, 10, 5).is_ok());
    assert_eq!(world.pool.total_staked, u64::MAX);
}

#[test]
fn stake_whose_record_would_overflow_is_refused() {
    // A record that holds more than its pool counts: only the record overflows.
    let mut world = World::new(ONE, 100);
    world.alice.amount = u64::MAX;
    assert_eq!(world.stake(ALICE, 1, 5), Err(StakingError::ArithmeticOverflow));
    assert_eq!(world.pool.total_staked, 0);
}

#[test]
fn claim_by_another_user_is_unauthorized() {
    let mut world = World::new(ONE, 100);
    world.stake(ALICE, 1000, 0).unwrap();
    assert_eq!(world.claim(BOB, ALICE, 100), Err(StakingError::Unauthorized));
    assert_eq!(world.pool.total_rewards_distributed, 0);
    assert_eq!(world.alice.last_claim_time, 0);
}

#[test]
fn unstake_by_another_user_is_unauthorized() {
    let mut world = World::new(ONE, 100);
    world.stake(ALICE, 1000, 0).unwrap();
    assert_eq!(world.unstake(BOB, ALICE, 100), Err(StakingError::Unauthorized));
    assert_eq!(world.pool.total_staked, 1000);
    assert_eq!(world.alice.amount, 1000);
}

#[test]
fn unauthorized_comes_before_no_stake_found() {
    let mut world = World::new(ONE, 100);
    assert_eq!(world.claim(BOB, ALICE, 100), Err(StakingError::Unauthorized));
    assert_eq!(world.claim(ALICE, ALICE, 100), Err(StakingError::NoStakeFound));
    assert_eq!(world.unstake(BOB, ALICE, 100), Err(StakingError::Unauthorized));
    assert_eq!(world.unstake(ALICE, ALICE, 100), Err(StakingError::NoStakeFound));
}

#[test]
fn claim_returns_the_transfer_out_of_the_vault() {
    let mut world = World::new(ONE / 4, 8);
    world.stake(ALICE, 100, 2).unwrap();
    assert_eq!(
        world.claim(ALICE, ALICE, 10),
        Ok(Transfer {
            asset: Asset::Reward(who(MINT)),
            from: who(VAULT),
            to: who(ALICE),
            amount: 200,
        })
    );
    assert_eq!(world.pool.total_rewards_distributed, 200);
    assert_eq!(world.pool.total_staked, 100);
    assert_eq!(world.alice.last_claim_time, 10);
    assert_eq!(world.alice.stake_time, 2);
    assert_eq!(world.alice.amount, 100);
}

#[test]
fn claim_that_overflows_the_paid_out_total_is_refused() {
    let mut world = World::new(ONE, 0);
    world.pool.total_rewards_distributed = u64::MAX - 99;
    world.stake(ALICE, 100, 0).unwrap();
    let (pool, alice) = (world.pool, world.alice);
    assert_eq!(world.claim(ALICE, ALICE, 1), Err(StakingError::ArithmeticOverflow));
    assert_eq!((world.pool, world.alice), (pool, alice));
    world.pool.total_rewards_distributed = u64::MAX - 100;
    assert!(world.claim(ALICE, ALICE, 1).is_ok());
    assert_eq!(world.pool.total_rewards_distributed, u64::MAX);
}

#[test]
fn second_claim_at_the_same_time_is_refused() {
    // With a lock period, the lock refuses it.
    let mut world = World::new(ONE, 100);
    world.stake(ALICE, 1000, 0).unwrap();
    assert!(world.claim(ALICE, ALICE, 100).is_ok());
    assert_eq!(world.claim(ALICE, ALICE, 100), Err(StakingError::LockPeriodNotMet));

    // Without one, there is nothing to claim.
    let mut world = World::new(ONE, 0);
    world.stake(ALICE, 1000, 0).unwrap();
    assert!(world.claim(ALICE, ALICE, 100).is_ok());
    assert_eq!(world.claim(ALICE, ALICE, 100), Err(StakingError::NoRewardsAvailable));
    assert_eq!(world.pool.total_rewards_distributed, 100_000);
}

#[test]
fn unstake_returns_the_transfer_out_of_custody() {
    let mut world = World::new(ONE, 100);
    world.stake(ALICE, 640, 0).unwrap();
    assert_eq!(
        world.unstake(ALICE, ALICE, 100),
        Ok(Transfer { asset: Asset::Base, from: who(POOL), to: who(ALICE), amount: 640 })
    );
    assert_eq!(world.pool.total_staked, 0);
    assert!(!world.alice.is_active());
}

#[test]
fn unstake_forfeits_rewards_that_were_not_claimed() {
    let mut world = World::new(ONE, 100);
    world.stake(ALICE, 640, 0).unwrap();
    world.unstake(ALICE, ALICE, 500).unwrap();
    assert_eq!(world.pool.total_rewards_distributed, 0);
    assert_eq!(world.claim(ALICE, ALICE, 500), Err(StakingError::NoStakeFound));
}

#[test]
fn unstake_of_more_than_the_pool_counts_is_refused() {
    // Only a record that is out of step with its pool gets here.
    let mut world = World::new(ONE, 0);
    world.alice.amount = 5;
    world.pool.total_staked = 4;
    assert_eq!(world.unstake(ALICE, ALICE, 0), Err(StakingError::ArithmeticUnderflow));
    assert_eq!(world.alice.amount, 5);
    assert_eq!(world.pool.total_staked, 4);
}

#[test]
fn add_rewards_returns_the_transfer_into_the_vault() {
    let ctx = AddRewards { pool: fresh_pool(ONE, 100), authority: who(AUTHORITY) };
    assert_eq!(
        add_rewards(&ctx, 5_000),
        Ok(Transfer {
            asset: Asset::Reward(who(MINT)),
            from: who(AUTHORITY),
            to: who(VAULT),
            amount: 5_000,
        })
    );
}

#[test]
fn add_rewards_by_another_than_the_authority_is_unauthorized() {
    let ctx = AddRewards { pool: fresh_pool(ONE, 100), authority: who(ALICE) };
    assert_eq!(add_rewards(&ctx, 5_000), Err(StakingError::Unauthorized));
}

#[test]
fn scenario_claim_then_unstake() {
    let mut world = World::new(ONE, 100);
    world.stake(ALICE, 1000, 0).unwrap();

    assert_eq!(world.claim(ALICE, ALICE, 50), Err(StakingError::LockPeriodNotMet));

    let claim = world.claim(ALICE, ALICE, 100).unwrap();
    assert_eq!(claim.amount, 100_000);
    assert_eq!(world.alice.last_claim_time, 100);
    assert_eq!(world.pool.total_rewards_distributed, 100_000);

    let back = world.unstake(ALICE, ALICE, 100).unwrap();
    assert_eq!(back.amount, 1000);
    assert_eq!(world.alice.amount, 0);
    assert_eq!(world.alice.stake_time, 0);
    assert_eq!(world.alice.last_claim_time, 0);
    assert!(!world.alice.is_active());
    assert_eq!(world.pool.total_staked, 0);
}

#[test]
fn scenario_top_up_relocks() {
    let mut world = World::new(ONE, 100);
    world.stake(ALICE, 500, 0).unwrap();
    world.stake(ALICE, 500, 50).unwrap();
    assert_eq!(world.alice.amount, 1000);
    assert_eq!(world.alice.stake_time, 50);

    assert_eq!(world.unstake(ALICE, ALICE, 100), Err(StakingError::LockPeriodNotMet));
    assert_eq!(world.unstake(ALICE, ALICE, 149), Err(StakingError::LockPeriodNotMet));
    let back = world.unstake(ALICE, ALICE, 150).unwrap();
    assert_eq!(back.amount, 1000);
    assert_eq!(world.pool.total_staked, 0);
}

#[test]
fn pool_total_follows_the_records_of_two_users() {
    let mut world = World::new(ONE, 10);
    let steps: [(u8, u64, i64); 4] = [(ALICE, 5, 0), (BOB, 7, 1), (ALICE, 11, 2), (BOB, 13, 3)];
    for (user, amount, now) in steps {
        world.stake(user, amount, now).unwrap();
        assert_eq!(world.pool.total_staked, world.alice.amount + world.bob.amount);
    }
    world.unstake(ALICE, ALICE, 12).unwrap();
    assert_eq!(world.pool.total_staked, world.alice.amount + world.bob.amount);
    assert_eq!(world.pool.total_staked, 20);
    world.unstake(BOB, BOB, 13).unwrap();
    assert_eq!(world.pool.total_staked, 0);
}

#[test]
fn terms_stay_as_they_were_made() {
    let mut world = World::new(ONE, 100);
    let made = world.pool;
    world.stake(ALICE, 1000, 0).unwrap();
    world.claim(ALICE, ALICE, 100).unwrap();
    world.unstake(ALICE, ALICE, 100).unwrap();
    assert_eq!(world.pool.authority, made.authority);
    assert_eq!(world.pool.reward_mint, made.reward_mint);
    assert_eq!(world.pool.reward_vault, made.reward_vault);
    assert_eq!(world.pool.reward_rate, made.reward_rate);
    assert_eq!(world.pool.lock_period, made.lock_period);
}
