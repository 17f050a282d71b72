use airvent_contract::constants::TOTAL_SUPPLY;
use airvent_contract::contract::Airvent;
use airvent_contract::errors::ErrorCode;
use airvent_contract::state::{Principal, SettlementPolicy};

const AUTHORITY: Principal = Principal { key: 9 };
const OWNER_A: Principal = Principal { key: 1 };
const OWNER_B: Principal = Principal { key: 2 };

fn accumulate_system(initial_reward: u64) -> Airvent {
    let mut system = Airvent::new();
    system.initialize_token().unwrap();
    system
        .initialize_reward_config(AUTHORITY, initial_reward, SettlementPolicy::AccumulateThenClaim, 0)
        .unwrap();
    system
}

fn immediate_system(initial_reward: u64) -> Airvent {
    let mut system = Airvent::new();
    system.initialize_token().unwrap();
    system
        .initialize_reward_config(AUTHORITY, initial_reward, SettlementPolicy::Immediate, 0)
        .unwrap();
    system
}

#[test]
fn token_initialization_is_one_time() {
    let mut system = Airvent::new();
    assert_eq!(system.initialize_token(), Ok(()));
    assert_eq!(system.vault.treasury, TOTAL_SUPPLY);
    assert_eq!(system.initialize_token(), Err(ErrorCode::AlreadyInitialized));
}

#[test]
fn config_initialization_is_one_time() {
    let mut system = Airvent::new();
    assert_eq!(
        system.initialize_reward_config(AUTHORITY, 1000, SettlementPolicy::Immediate, 50),
        Ok(())
    );
    assert_eq!(
        system.initialize_reward_config(AUTHORITY, 2000, SettlementPolicy::Immediate, 60),
        Err(ErrorCode::AlreadyInitialized)
    );
}

#[test]
fn config_initialization_rejects_negative_clock() {
    let mut system = Airvent::new();
    assert_eq!(
        system.initialize_reward_config(AUTHORITY, 1000, SettlementPolicy::Immediate, -1),
        Err(ErrorCode::InvalidTimestamp)
    );
}

#[test]
fn submit_without_config_is_rejected() {
    let mut system = Airvent::new();
    let id = b"sensor-01".to_vec();
    system.register_device(id.clone(), OWNER_A, 100).unwrap();
    assert!(matches!(
        system.submit_data(&id, 352, 501, 253, 655, 200),
        Err(ErrorCode::ConfigNotInitialized)
    ));
}

#[test]
fn submit_for_unknown_device_is_not_found() {
    let mut system = accumulate_system(1000);
    assert!(matches!(
        system.submit_data(&b"ghost".to_vec(), 352, 501, 253, 655, 200),
        Err(ErrorCode::DeviceNotFound)
    ));
}

#[test]
fn submit_before_halving_clock_start_is_rejected() {
    let mut system = Airvent::new();
    system.initialize_token().unwrap();
    system
        .initialize_reward_config(AUTHORITY, 1000, SettlementPolicy::AccumulateThenClaim, 500)
        .unwrap();
    let id = b"sensor-01".to_vec();
    system.register_device(id.clone(), OWNER_A, 100).unwrap();
    assert!(matches!(
        system.submit_data(&id, 352, 501, 253, 655, 499),
        Err(ErrorCode::InvalidTimestamp)
    ));
    assert_eq!(system.get_device_rewards(&id), Ok(0));
}

#[test]
fn three_submissions_accumulate_then_claim_exactly() {
    let mut system = accumulate_system(1000);
    let id = b"sensor-01".to_vec();
    system.register_device(id.clone(), OWNER_A, 0).unwrap();

    for now in [10, 20, 30] {
        let event = system.submit_data(&id, 352, 501, 253, 655, now).unwrap();
        assert_eq!(event.reward_amount, 1000);
        assert_eq!(event.halving_epoch, 0);
        assert_eq!(event.owner, OWNER_A);
        assert_eq!(event.timestamp, now);
    }
    assert_eq!(system.get_device_rewards(&id), Ok(3000));
    // Nothing was paid out yet under the accumulate policy.
    assert_eq!(system.vault.balance_of(OWNER_A), 0);
    assert_eq!(system.vault.treasury, TOTAL_SUPPLY);

    assert_eq!(system.claim_rewards(&id, OWNER_A), Ok(3000));
    assert_eq!(system.vault.balance_of(OWNER_A), 3000);
    assert_eq!(system.vault.treasury, TOTAL_SUPPLY - 3000);
    assert_eq!(system.get_device_rewards(&id), Ok(0));

    assert_eq!(system.claim_rewards(&id, OWNER_A), Err(ErrorCode::NoRewardsToClaim));
}

#[test]
fn immediate_policy_pays_on_every_submission() {
    let mut system = immediate_system(1000);
    let id = b"sensor-01".to_vec();
    system.register_device(id.clone(), OWNER_A, 0).unwrap();

    system.submit_data(&id, 352, 501, 253, 655, 10).unwrap();
    system.submit_data(&id, 352, 501, 253, 655, 20).unwrap();
    assert_eq!(system.vault.balance_of(OWNER_A), 2000);
    assert_eq!(system.vault.treasury, TOTAL_SUPPLY - 2000);
    // No balance ever accrues under the immediate policy.
    assert_eq!(system.get_device_rewards(&id), Ok(0));
    assert_eq!(system.claim_rewards(&id, OWNER_A), Err(ErrorCode::NoRewardsToClaim));
}

#[test]
fn submission_reward_halves_with_elapsed_time() {
    let mut system = accumulate_system(1000);
    let id = b"sensor-01".to_vec();
    system.register_device(id.clone(), OWNER_A, 0).unwrap();

    let event = system.submit_data(&id, 1, 2, 3, 4, 126_144_000).unwrap();
    assert_eq!(event.reward_amount, 500);
    assert_eq!(event.halving_epoch, 1);
    let event = system.submit_data(&id, 1, 2, 3, 4, 252_288_001).unwrap();
    assert_eq!(event.reward_amount, 250);
    assert_eq!(event.halving_epoch, 2);
    assert_eq!(system.get_device_rewards(&id), Ok(750));
}

#[test]
fn deactivated_device_cannot_submit_and_counters_stay() {
    let mut system = accumulate_system(1000);
    let id = b"sensor-01".to_vec();
    system.register_device(id.clone(), OWNER_A, 0).unwrap();
    system.submit_data(&id, 352, 501, 253, 655, 10).unwrap();
    system.deactivate_device(&id, OWNER_A).unwrap();

    assert!(matches!(
        system.submit_data(&id, 352, 501, 253, 655, 20),
        Err(ErrorCode::DeviceNotActive)
    ));
    // No counters moved: the balance is exactly one submission's worth.
    assert_eq!(system.get_device_rewards(&id), Ok(1000));
    assert_eq!(system.vault.treasury, TOTAL_SUPPLY);
    // The accrued balance is still claimable after deactivation.
    assert_eq!(system.claim_rewards(&id, OWNER_A), Ok(1000));
}

#[test]
fn reads_do_not_mutate() {
    let mut system = accumulate_system(1000);
    let id = b"sensor-01".to_vec();
    system.register_device(id.clone(), OWNER_A, 0).unwrap();
    system.submit_data(&id, 352, 501, 253, 655, 10).unwrap();
    for _ in 0..5 {
        assert_eq!(system.get_device_rewards(&id), Ok(1000));
    }
}

#[test]
fn claim_with_empty_treasury_fails_and_keeps_balance() {
    // Configure rewards without ever minting the supply: the treasury is
    // empty, so settlement must fail and the balance must survive.
    let mut system = Airvent::new();
    system
        .initialize_reward_config(AUTHORITY, 1000, SettlementPolicy::AccumulateThenClaim, 0)
        .unwrap();
    let id = b"sensor-01".to_vec();
    system.register_device(id.clone(), OWNER_A, 0).unwrap();
    system.submit_data(&id, 352, 501, 253, 655, 10).unwrap();

    assert_eq!(system.claim_rewards(&id, OWNER_A), Err(ErrorCode::SettlementFailed));
    // No funds lost, no double-claim window: the balance is unchanged.
    assert_eq!(system.get_device_rewards(&id), Ok(1000));
    assert_eq!(system.vault.balance_of(OWNER_A), 0);
}

#[test]
fn immediate_settlement_shortfall_rejects_the_submission() {
    // A reward larger than the whole treasury cannot be paid immediately.
    let mut system = immediate_system(u64::MAX);
    let id = b"sensor-01".to_vec();
    system.register_device(id.clone(), OWNER_A, 0).unwrap();

    assert!(matches!(
        system.submit_data(&id, 352, 501, 253, 655, 10),
        Err(ErrorCode::SettlementFailed)
    ));
    assert_eq!(system.vault.treasury, TOTAL_SUPPLY);
    assert_eq!(system.vault.balance_of(OWNER_A), 0);
    assert_eq!(system.get_device_rewards(&id), Ok(0));
}

#[test]
fn accumulated_balance_overflow_is_rejected_whole() {
    let mut system = Airvent::new();
    system
        .initialize_reward_config(AUTHORITY, u64::MAX, SettlementPolicy::AccumulateThenClaim, 0)
        .unwrap();
    let id = b"sensor-01".to_vec();
    system.register_device(id.clone(), OWNER_A, 0).unwrap();

    system.submit_data(&id, 352, 501, 253, 655, 10).unwrap();
    assert_eq!(system.get_device_rewards(&id), Ok(u64::MAX));
    assert!(matches!(
        system.submit_data(&id, 352, 501, 253, 655, 20),
        Err(ErrorCode::ArithmeticOverflow)
    ));
    // The failed submission changed nothing.
    assert_eq!(system.get_device_rewards(&id), Ok(u64::MAX));
}

#[test]
fn transfer_moves_future_rewards_to_new_owner() {
    let mut system = immediate_system(1000);
    let id = b"sensor-01".to_vec();
    system.register_device(id.clone(), OWNER_A, 0).unwrap();
    system.submit_data(&id, 1, 2, 3, 4, 10).unwrap();
    system.transfer_ownership(&id, OWNER_B, OWNER_A).unwrap();
    system.submit_data(&id, 1, 2, 3, 4, 20).unwrap();

    assert_eq!(system.vault.balance_of(OWNER_A), 1000);
    assert_eq!(system.vault.balance_of(OWNER_B), 1000);
}

#[test]
fn submission_event_reports_the_measurements() {
    let mut system = accumulate_system(1000);
    let id = b"sensor-01".to_vec();
    system.register_device(id.clone(), OWNER_A, 0).unwrap();
    let event = system.submit_data(&id, 352, 501, -53, 655, 10).unwrap();
    assert_eq!(event.device_id, id);
    assert_eq!(event.pm25, 352);
    assert_eq!(event.pm10, 501);
    assert_eq!(event.temperature, -53);
    assert_eq!(event.humidity, 655);
}
