use airvent_contract::errors::ErrorCode;
use airvent_contract::halving::halving_reward;

#[test]
fn reward_at_epoch_zero() {
    assert_eq!(halving_reward(1000, 0, 0), Ok((1000, 0)));
}

#[test]
fn reward_after_one_interval() {
    assert_eq!(halving_reward(1000, 0, 126_144_000), Ok((500, 1)));
}

#[test]
fn reward_after_two_intervals() {
    assert_eq!(halving_reward(1000, 0, 252_288_001), Ok((250, 2)));
}

#[test]
fn reward_just_before_first_halving() {
    assert_eq!(halving_reward(1000, 0, 126_143_999), Ok((1000, 0)));
}

#[test]
fn reward_with_nonzero_start() {
    assert_eq!(halving_reward(1000, 1_000_000, 1_000_000 + 126_144_000), Ok((500, 1)));
}

#[test]
fn reward_is_nonincreasing_over_sampled_epochs() {
    let mut previous = u64::MAX;
    for epoch in 0..70u64 {
        let now = (epoch as i64) * 126_144_000;
        let (reward, e) = halving_reward(1_000_000_000, 0, now).unwrap();
        assert_eq!(e, epoch);
        assert!(reward <= previous);
        previous = reward;
    }
}

#[test]
fn reward_matches_right_shift() {
    for epoch in 0..64u64 {
        let now = (epoch as i64) * 126_144_000;
        let (reward, _) = halving_reward(987_654_321, 0, now).unwrap();
        assert_eq!(reward, 987_654_321u64 >> epoch);
    }
}

#[test]
fn reward_is_zero_past_the_bit_width() {
    let now = 64i64 * 126_144_000;
    assert_eq!(halving_reward(u64::MAX, 0, now), Ok((0, 64)));
    let far = 100i64 * 126_144_000;
    assert_eq!(halving_reward(u64::MAX, 0, far), Ok((0, 100)));
}

#[test]
fn clock_before_start_is_rejected() {
    assert_eq!(halving_reward(1000, 10, 9), Err(ErrorCode::InvalidTimestamp));
}
