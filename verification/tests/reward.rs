use staking::{calculate_rewards, StakingError, RATE_SCALE};

#[test]
fn rate_scale_is_ten_to_the_ninth() {
    assert_eq!(RATE_SCALE, 1_000_000_000);
}

#[test]
fn reward_at_rate_one_is_amount_times_elapsed() {
    assert_eq!(calculate_rewards(1000, 100, RATE_SCALE), Ok(100_000));
    assert_eq!(calculate_rewards(1, 1, RATE_SCALE), Ok(1));
    assert_eq!(calculate_rewards(u64::MAX, 1, RATE_SCALE), Ok(u64::MAX));
}

#[test]
fn reward_is_rounded_down() {
    // 7 * 3 * 0.5 = 10.5
    assert_eq!(calculate_rewards(7, 3, 500_000_000), Ok(10));
    // 1 * 1 * 0.999999999 < 1
    assert_eq!(calculate_rewards(1, 1, 999_999_999), Ok(0));
    // 3 * 1 * (1 / 3): 999_999_999 / 1e9
    assert_eq!(calculate_rewards(3, 1, 333_333_333), Ok(0));
    assert_eq!(calculate_rewards(3, 1, 333_333_334), Ok(1));
    assert_eq!(calculate_rewards(123_456_789, 86_400, 1_250_000), Ok(13_333_333_212));
}

#[test]
fn reward_is_zero_without_stake_or_time() {
    assert_eq!(calculate_rewards(0, 100, RATE_SCALE), Ok(0));
    assert_eq!(calculate_rewards(1000, 0, RATE_SCALE), Ok(0));
    assert_eq!(calculate_rewards(1000, -1, RATE_SCALE), Ok(0));
    assert_eq!(calculate_rewards(1000, i64::MIN, u64::MAX), Ok(0));
    assert_eq!(calculate_rewards(0, i64::MAX, u64::MAX), Ok(0));
    assert_eq!(calculate_rewards(1000, 100, 0), Ok(0));
}

#[test]
fn reward_that_does_not_fit_is_refused() {
    // The quotient passes 64 bits though the product fits 128.
    assert_eq!(calculate_rewards(u64::MAX, 2, RATE_SCALE), Err(StakingError::ArithmeticOverflow));
    // The product itself passes 128 bits.
    assert_eq!(
        calculate_rewards(u64::MAX, i64::MAX, u64::MAX),
        Err(StakingError::ArithmeticOverflow)
    );
    // The largest reward that fits, and the first that does not.
    assert_eq!(calculate_rewards(u64::MAX, 1, RATE_SCALE + 0), Ok(u64::MAX));
    assert_eq!(calculate_rewards(u64::MAX, 1, RATE_SCALE + 1), Err(StakingError::ArithmeticOverflow));
}

#[test]
fn reward_is_the_same_every_time() {
    let first = calculate_rewards(987_654_321, 12_345, 77_777_777);
    for _ in 0..10 {
        assert_eq!(calculate_rewards(987_654_321, 12_345, 77_777_777), first);
    }
    assert_eq!(first, Ok(948_312_747_730));
}

#[test]
fn reward_does_not_fall_as_amount_grows() {
    let rate = 123_456_789;
    let mut last = 0;
    for amount in [0u64, 1, 2, 9, 10, 999, 1_000, 1_000_000, u32::MAX as u64] {
        let reward = calculate_rewards(amount, 3_600, rate).unwrap();
        assert!(reward >= last);
        last = reward;
    }
}

#[test]
fn reward_does_not_fall_as_time_passes() {
    let rate = 123_456_789;
    let mut last = 0;
    for elapsed in [-5i64, 0, 1, 2, 59, 60, 3_600, 86_400, 31_536_000] {
        let reward = calculate_rewards(5_000, elapsed, rate).unwrap();
        assert!(reward >= last);
        last = reward;
    }
}
