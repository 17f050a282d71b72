//! Persistent records of the reward system: the per-device registry entry,
//! the per-device reward ledger, the global reward configuration, and the
//! audit event emitted on every accepted submission.

use vstd::prelude::*;

use crate::constants::MAX_DEVICE_ID_LEN;

verus! {

/// A principal: an identity that can sign requests and own devices and
/// token balances.
#[derive(Clone, Copy, Debug, PartialEq, Eq, Structural)]
pub struct Principal {
    /// Opaque account identifier.
    pub key: u64,
}

/// How an earned reward is settled.
#[derive(Clone, Copy, Debug, PartialEq, Eq, Structural)]
pub enum SettlementPolicy {
    /// The reward is transferred to the device owner at the moment of each
    /// submission; no unclaimed balance ever accrues.
    Immediate,
    /// The reward is credited to the device's unclaimed balance and paid out
    /// only on an explicit claim by the owner.
    AccumulateThenClaim,
}

/// Registry entry for one IoT device.
pub struct DeviceRegistry {
    /// Unique device identifier (e.g. a serial number), 1 to 32 bytes,
    /// immutable once set.
    pub device_id: Vec<u8>,
    /// The device owner's account.
    pub owner: Principal,
    /// Time the device was registered.
    pub registered_at: i64,
    /// Whether the device may submit data.  Cleared by `deactivate_device`;
    /// there is deliberately no way to set it again.
    pub is_active: bool,
}

/// Reward ledger for one device.  Created together with the device, zeroed.
pub struct DeviceRewards {
    /// The device this ledger belongs to.
    pub device_id: Vec<u8>,
    /// Mirror of the device's current owner, updated in the same atomic step
    /// as every ownership transfer.
    pub owner: Principal,
    /// Unclaimed balance in base units.  Always zero under the immediate
    /// settlement policy.
    pub accumulated: u64,
    /// Number of accepted submissions by this device.
    pub total_data_submitted: u64,
    /// Time of the most recent accepted submission (zero before the first).
    pub last_submission: i64,
}

/// Global reward configuration: a singleton created once and never replaced.
#[derive(Clone, Copy, Debug)]
pub struct RewardConfig {
    /// The principal that initialized the configuration.
    pub authority: Principal,
    /// Reward per submission in epoch zero, in base units.
    pub initial_reward: u64,
    /// Start of the halving clock; never changes after initialization.
    pub start_timestamp: i64,
    /// The settlement policy chosen for this deployment.
    pub policy: SettlementPolicy,
    /// Total accepted submissions across all devices (auditing only).
    pub total_data_submitted: u64,
    /// Total rewards recorded across all submissions (auditing only).
    pub total_rewards_distributed: u64,
}

/// Audit record of one accepted submission.  Emitted, never stored: the
/// caller appends it to the durable event log.
pub struct DataSubmitted {
    /// The submitting device.
    pub device_id: Vec<u8>,
    /// Time of the submission.
    pub timestamp: i64,
    /// PM2.5 concentration in tenths of a microgram per cubic metre.
    pub pm25: u32,
    /// PM10 concentration in tenths of a microgram per cubic metre.
    pub pm10: u32,
    /// Temperature in tenths of a degree Celsius.
    pub temperature: i32,
    /// Relative humidity in tenths of a percent.
    pub humidity: u32,
    /// Reward earned by this submission, in base units.
    pub reward_amount: u64,
    /// Halving epoch the reward was computed in.
    pub halving_epoch: u64,
    /// The device owner at the time of the submission: the principal the
    /// reward was paid or credited to.
    pub owner: Principal,
}

/// A device ID is well formed: non-empty and at most 32 bytes.
pub open spec fn valid_device_id(id: Seq<u8>) -> bool {
    1 <= id.len() <= MAX_DEVICE_ID_LEN
}

/// A registry entry and its reward ledger are internally consistent: same
/// device, same owner, and a well-formed ID.
pub open spec fn entry_wf(device: DeviceRegistry, rewards: DeviceRewards) -> bool {
    &&& valid_device_id(device.device_id@)
    &&& rewards.device_id@ == device.device_id@
    &&& rewards.owner == device.owner
}

/// The configuration is well formed: the halving clock starts at a
/// non-negative time.
pub open spec fn config_wf(config: RewardConfig) -> bool {
    config.start_timestamp >= 0
}

} // verus!
