//! The reward system itself: device registry, reward ledger and settlement,
//! over the token vault.
//!
//! Every public operation is one atomic step: it either applies all of its
//! effects or fails with a specific [`ErrorCode`] and leaves the whole state
//! exactly as it was.  Time never comes from a clock inside this crate; the
//! caller injects `now` into every time-dependent operation.

use vstd::prelude::*;

use crate::constants::{MAX_DEVICE_ID_LEN, TOTAL_SUPPLY};
use crate::errors::ErrorCode;
use crate::halving::{epoch_at, halving_reward, reward_for_epoch};
use crate::state::{
    config_wf, entry_wf, valid_device_id, DataSubmitted, DeviceRegistry, DeviceRewards, Principal,
    RewardConfig, SettlementPolicy,
};
use crate::vault::{spec_balance_of, TokenVault};

verus! {

/// A registered device together with its reward ledger.  The two records are
/// only ever written together, in the same atomic operation.
pub struct DeviceEntry {
    /// The registry record.
    pub device: DeviceRegistry,
    /// The reward ledger record.
    pub rewards: DeviceRewards,
}

/// The whole state of the reward system: the token vault, the singleton
/// reward configuration (absent until initialized), and one entry per
/// registered device.
pub struct Airvent {
    /// Treasury and reward recipients' balances.
    pub vault: TokenVault,
    /// Global reward configuration; `None` until `initialize_reward_config`.
    pub config: Option<RewardConfig>,
    /// All registered devices, in order of registration.
    pub devices: Vec<DeviceEntry>,
}

/// Whether some entry carries the device ID `id`.
pub open spec fn has_device(s: Seq<DeviceEntry>, id: Seq<u8>) -> bool {
    exists|i: int| 0 <= i < s.len() && s[i].device.device_id@ == id
}

/// Index of the entry carrying device ID `id` (meaningful only when
/// `has_device` holds; unique when the IDs are unique).
pub open spec fn device_index(s: Seq<DeviceEntry>, id: Seq<u8>) -> int {
    choose|i: int| 0 <= i < s.len() && s[i].device.device_id@ == id
}

/// Whether recording one submission worth `reward` would overflow one of
/// the audit counters, or — under the accumulate policy — the device's
/// unclaimed balance.  Such a submission is rejected whole.
pub open spec fn submission_overflows(c: RewardConfig, dr: DeviceRewards, reward: nat) -> bool {
    ||| dr.total_data_submitted + 1 > u64::MAX
    ||| c.total_data_submitted + 1 > u64::MAX
    ||| c.total_rewards_distributed + reward > u64::MAX
    ||| (c.policy == SettlementPolicy::AccumulateThenClaim && dr.accumulated + reward > u64::MAX)
}

impl Airvent {
    /// The system's invariant, preserved by every operation:
    /// - the vault conserves the token supply;
    /// - every entry is internally consistent (well-formed ID, ledger owner
    ///   equal to the registry owner);
    /// - device IDs are unique;
    /// - the configuration, once present, is well formed;
    /// - no balance accrues before configuration, nor ever under the
    ///   immediate settlement policy.
    pub open spec fn wf(self) -> bool {
        &&& self.vault.inv()
        &&& forall|i: int|
            0 <= i < self.devices@.len() ==> entry_wf(
                #[trigger] self.devices@[i].device,
                self.devices@[i].rewards,
            )
        &&& forall|i: int, j: int|
            0 <= i < self.devices@.len() && 0 <= j < self.devices@.len() && i != j
                ==> self.devices@[i].device.device_id@ != self.devices@[j].device.device_id@
        &&& (self.config matches Some(c) ==> config_wf(c))
        &&& (match self.config {
            Some(c) => c.policy == SettlementPolicy::Immediate ==> forall|i: int|
                0 <= i < self.devices@.len() ==> #[trigger] self.devices@[i].rewards.accumulated
                    == 0,
            None => forall|i: int|
                0 <= i < self.devices@.len() ==> #[trigger] self.devices@[i].rewards.accumulated
                    == 0,
        })
    }

    /// A fresh system: no supply minted, no configuration, no devices.
    pub fn new() -> (system: Airvent)
        ensures
            system.wf(),
            !system.vault.minted,
            system.vault.treasury == 0,
            system.config is None,
            system.devices@.len() == 0,
    {
        Airvent { vault: TokenVault::new(), config: None, devices: Vec::new() }
    }

    /// Index of the entry for `device_id`, if the device is registered.
    fn find_device(&self, device_id: &Vec<u8>) -> (found: Option<usize>)
        requires
            self.wf(),
        ensures
            match found {
                Some(i) => {
                    &&& has_device(self.devices@, device_id@)
                    &&& 0 <= i < self.devices@.len()
                    &&& self.devices@[i as int].device.device_id@ == device_id@
                    &&& i == device_index(self.devices@, device_id@)
                },
                None => !has_device(self.devices@, device_id@),
            },
    {
        let n = self.devices.len();
        let mut i: usize = 0;
        while i < n
            invariant
                self.wf(),
                n == self.devices@.len(),
                0 <= i <= n,
                forall|j: int| 0 <= j < i ==> self.devices@[j].device.device_id@ != device_id@,
            decreases n - i,
        {
            if ids_equal(&self.devices[i].device.device_id, device_id) {
                proof {
                    assert(has_device(self.devices@, device_id@));
                    let k = device_index(self.devices@, device_id@);
                    assert(self.devices@[k].device.device_id@ == device_id@);
                    assert(k == i);
                }
                return Some(i);
            }
            i = i + 1;
        }
        None
    }

    /// Mints the fixed total supply to the treasury.  One-time: a second
    /// call fails `AlreadyInitialized` and changes nothing.
    pub fn initialize_token(&mut self) -> (result: Result<(), ErrorCode>)
        requires
            old(self).wf(),
        ensures
            final(self).wf(),
            old(self).vault.minted ==> result == Err::<(), ErrorCode>(ErrorCode::AlreadyInitialized)
                && *final(self) == *old(self),
            !old(self).vault.minted ==> result == Ok::<(), ErrorCode>(()) && {
                &&& final(self).vault.minted
                &&& final(self).vault.treasury == TOTAL_SUPPLY
                &&& final(self).vault.balances@ == old(self).vault.balances@
                &&& final(self).config == old(self).config
                &&& final(self).devices@ == old(self).devices@
            },
    {
        let result = self.vault.initialize_supply();
        result
    }

    /// Creates the singleton reward configuration, anchoring the halving
    /// clock at `now`.  One-time: a second call fails `AlreadyInitialized`.
    /// A negative `now` is a clock error and fails `InvalidTimestamp`.
    /// Nothing changes on any error.
    pub fn initialize_reward_config(
        &mut self,
        authority: Principal,
        initial_reward: u64,
        policy: SettlementPolicy,
        now: i64,
    ) -> (result: Result<(), ErrorCode>)
        requires
            old(self).wf(),
        ensures
            final(self).wf(),
            old(self).config is Some ==> result == Err::<(), ErrorCode>(
                ErrorCode::AlreadyInitialized,
            ) && *final(self) == *old(self),
            old(self).config is None && now < 0 ==> result == Err::<(), ErrorCode>(
                ErrorCode::InvalidTimestamp,
            ) && *final(self) == *old(self),
            old(self).config is None && now >= 0 ==> result == Ok::<(), ErrorCode>(()) && {
                &&& final(self).config == Some(
                    RewardConfig {
                        authority,
                        initial_reward,
                        start_timestamp: now,
                        policy,
                        total_data_submitted: 0,
                        total_rewards_distributed: 0,
                    },
                )
                &&& final(self).vault == old(self).vault
                &&& final(self).devices@ == old(self).devices@
            },
    {
        if self.config.is_some() {
            return Err(ErrorCode::AlreadyInitialized);
        }
        if now < 0 {
            return Err(ErrorCode::InvalidTimestamp);
        }
        self.config = Some(
            RewardConfig {
                authority,
                initial_reward,
                start_timestamp: now,
                policy,
                total_data_submitted: 0,
                total_rewards_distributed: 0,
            },
        );
        Ok(())
    }

    /// Registers a new device owned by `owner`, creating its zeroed reward
    /// ledger in the same atomic step.  The ID must be 1 to 32 bytes and not
    /// yet taken; `registered_at` is set to the injected time `now`.
    /// Nothing changes on any error.
    pub fn register_device(&mut self, device_id: Vec<u8>, owner: Principal, now: i64) -> (result:
        Result<(), ErrorCode>)
        requires
            old(self).wf(),
        ensures
            final(self).wf(),
            device_id@.len() == 0 ==> result == Err::<(), ErrorCode>(ErrorCode::DeviceIdEmpty)
                && *final(self) == *old(self),
            device_id@.len() > MAX_DEVICE_ID_LEN ==> result == Err::<(), ErrorCode>(
                ErrorCode::DeviceIdTooLong,
            ) && *final(self) == *old(self),
            valid_device_id(device_id@) && has_device(old(self).devices@, device_id@) ==> result
                == Err::<(), ErrorCode>(ErrorCode::DeviceAlreadyExists) && *final(self) == *old(
                self,
            ),
            valid_device_id(device_id@) && !has_device(old(self).devices@, device_id@) ==> result
                == Ok::<(), ErrorCode>(()) && {
                &&& final(self).devices@.len() == old(self).devices@.len() + 1
                &&& forall|j: int|
                    0 <= j < old(self).devices@.len() ==> final(self).devices@[j] == old(
                        self,
                    ).devices@[j]
                &&& ({
                    let e = final(self).devices@.last();
                    &&& e.device.device_id@ == device_id@
                    &&& e.device.owner == owner
                    &&& e.device.registered_at == now
                    &&& e.device.is_active
                    &&& e.rewards.device_id@ == device_id@
                    &&& e.rewards.owner == owner
                    &&& e.rewards.accumulated == 0
                    &&& e.rewards.total_data_submitted == 0
                    &&& e.rewards.last_submission == 0
                })
                &&& final(self).vault == old(self).vault
                &&& final(self).config == old(self).config
            },
    {
        if device_id.len() > MAX_DEVICE_ID_LEN {
            return Err(ErrorCode::DeviceIdTooLong);
        }
        if device_id.len() == 0 {
            return Err(ErrorCode::DeviceIdEmpty);
        }
        if self.find_device(&device_id).is_some() {
            return Err(ErrorCode::DeviceAlreadyExists);
        }
        let rewards_id = copy_id(&device_id);
        let entry = DeviceEntry {
            device: DeviceRegistry { device_id, owner, registered_at: now, is_active: true },
            rewards: DeviceRewards {
                device_id: rewards_id,
                owner,
                accumulated: 0,
                total_data_submitted: 0,
                last_submission: 0,
            },
        };
        self.devices.push(entry);
        Ok(())
    }

    /// Transfers ownership of a device to `new_owner`, updating the registry
    /// record and the reward ledger's owner mirror in one atomic step: any
    /// balance already accrued follows the device to the new owner.  Only
    /// the current owner may transfer.  Nothing changes on any error.
    pub fn transfer_ownership(
        &mut self,
        device_id: &Vec<u8>,
        new_owner: Principal,
        signer: Principal,
    ) -> (result: Result<(), ErrorCode>)
        requires
            old(self).wf(),
        ensures
            final(self).wf(),
            !has_device(old(self).devices@, device_id@) ==> result == Err::<(), ErrorCode>(
                ErrorCode::DeviceNotFound,
            ) && *final(self) == *old(self),
            has_device(old(self).devices@, device_id@) ==> ({
                let i = device_index(old(self).devices@, device_id@);
                &&& signer != old(self).devices@[i].device.owner ==> result == Err::<
                    (),
                    ErrorCode,
                >(ErrorCode::Unauthorized) && *final(self) == *old(self)
                &&& signer == old(self).devices@[i].device.owner ==> result == Ok::<
                    (),
                    ErrorCode,
                >(()) && {
                    &&& final(self).devices@.len() == old(self).devices@.len()
                    &&& forall|j: int|
                        0 <= j < old(self).devices@.len() && j != i ==> final(self).devices@[j]
                            == old(self).devices@[j]
                    &&& ({
                        let d = final(self).devices@[i];
                        let o = old(self).devices@[i];
                        &&& d.device.device_id@ == o.device.device_id@
                        &&& d.device.owner == new_owner
                        &&& d.device.registered_at == o.device.registered_at
                        &&& d.device.is_active == o.device.is_active
                        &&& d.rewards.device_id@ == o.rewards.device_id@
                        &&& d.rewards.owner == new_owner
                        &&& d.rewards.accumulated == o.rewards.accumulated
                        &&& d.rewards.total_data_submitted == o.rewards.total_data_submitted
                        &&& d.rewards.last_submission == o.rewards.last_submission
                    })
                    &&& final(self).vault == old(self).vault
                    &&& final(self).config == old(self).config
                }
            }),
    {
        let i = match self.find_device(device_id) {
            None => {
                return Err(ErrorCode::DeviceNotFound);
            },
            Some(i) => i,
        };
        if self.devices[i].device.owner != signer {
            return Err(ErrorCode::Unauthorized);
        }
        self.devices[i].device.owner = new_owner;
        self.devices[i].rewards.owner = new_owner;
        Ok(())
    }

    /// Deactivates a device, barring further submissions.  Only the current
    /// owner may deactivate; doing so twice is a harmless no-op, not an
    /// error.  There is deliberately no way to reactivate.  Nothing changes
    /// on any error.
    pub fn deactivate_device(&mut self, device_id: &Vec<u8>, signer: Principal) -> (result: Result<
        (),
        ErrorCode,
    >)
        requires
            old(self).wf(),
        ensures
            final(self).wf(),
            !has_device(old(self).devices@, device_id@) ==> result == Err::<(), ErrorCode>(
                ErrorCode::DeviceNotFound,
            ) && *final(self) == *old(self),
            has_device(old(self).devices@, device_id@) ==> ({
                let i = device_index(old(self).devices@, device_id@);
                &&& signer != old(self).devices@[i].device.owner ==> result == Err::<
                    (),
                    ErrorCode,
                >(ErrorCode::Unauthorized) && *final(self) == *old(self)
                &&& signer == old(self).devices@[i].device.owner ==> result == Ok::<
                    (),
                    ErrorCode,
                >(()) && {
                    &&& final(self).devices@.len() == old(self).devices@.len()
                    &&& forall|j: int|
                        0 <= j < old(self).devices@.len() && j != i ==> final(self).devices@[j]
                            == old(self).devices@[j]
                    &&& ({
                        let d = final(self).devices@[i];
                        let o = old(self).devices@[i];
                        &&& d.device.device_id@ == o.device.device_id@
                        &&& d.device.owner == o.device.owner
                        &&& d.device.registered_at == o.device.registered_at
                        &&& !d.device.is_active
                        &&& d.rewards == o.rewards
                    })
                    &&& final(self).vault == old(self).vault
                    &&& final(self).config == old(self).config
                }
            }),
    {
        let i = match self.find_device(device_id) {
            None => {
                return Err(ErrorCode::DeviceNotFound);
            },
            Some(i) => i,
        };
        if self.devices[i].device.owner != signer {
            return Err(ErrorCode::Unauthorized);
        }
        self.devices[i].device.is_active = false;
        Ok(())
    }

    /// Reads a device's unclaimed balance.  Takes the state immutably, so it
    /// can never change anything: repeated calls return the same value until
    /// some other operation runs.
    pub fn get_device_rewards(&self, device_id: &Vec<u8>) -> (result: Result<u64, ErrorCode>)
        requires
            self.wf(),
        ensures
            !has_device(self.devices@, device_id@) ==> result == Err::<u64, ErrorCode>(
                ErrorCode::DeviceNotFound,
            ),
            has_device(self.devices@, device_id@) ==> result == Ok::<u64, ErrorCode>(
                self.devices@[device_index(self.devices@, device_id@)].rewards.accumulated,
            ),
    {
        match self.find_device(device_id) {
            None => Err(ErrorCode::DeviceNotFound),
            Some(i) => Ok(self.devices[i].rewards.accumulated),
        }
    }

    /// Accepts one data submission from an active device at time `now`,
    /// computes the reward for the current halving epoch, settles it
    /// according to the configured policy — paid to the owner at once, or
    /// credited to the device's unclaimed balance — updates the device and
    /// global counters, and returns the audit event.  All of that is one
    /// atomic step: on any error nothing changes, including when the
    /// treasury cannot cover an immediate payout.
    pub fn submit_data(
        &mut self,
        device_id: &Vec<u8>,
        pm25: u32,
        pm10: u32,
        temperature: i32,
        humidity: u32,
        now: i64,
    ) -> (result: Result<DataSubmitted, ErrorCode>)
        requires
            old(self).wf(),
        ensures
            final(self).wf(),
            old(self).config is None ==> result == Err::<DataSubmitted, ErrorCode>(
                ErrorCode::ConfigNotInitialized,
            ) && *final(self) == *old(self),
            old(self).config matches Some(c) ==> {
                &&& !has_device(old(self).devices@, device_id@) ==> result == Err::<
                    DataSubmitted,
                    ErrorCode,
                >(ErrorCode::DeviceNotFound) && *final(self) == *old(self)
                &&& has_device(old(self).devices@, device_id@) ==> ({
                    let i = device_index(old(self).devices@, device_id@);
                    let o = old(self).devices@[i];
                    let epoch = epoch_at(c.start_timestamp as int, now as int);
                    let reward = reward_for_epoch(c.initial_reward, epoch as nat);
                    &&& !o.device.is_active ==> result == Err::<DataSubmitted, ErrorCode>(
                        ErrorCode::DeviceNotActive,
                    ) && *final(self) == *old(self)
                    &&& o.device.is_active && now < c.start_timestamp ==> result == Err::<
                        DataSubmitted,
                        ErrorCode,
                    >(ErrorCode::InvalidTimestamp) && *final(self) == *old(self)
                    &&& o.device.is_active && now >= c.start_timestamp && submission_overflows(
                        c,
                        o.rewards,
                        reward,
                    ) ==> result == Err::<DataSubmitted, ErrorCode>(ErrorCode::ArithmeticOverflow)
                        && *final(self) == *old(self)
                    &&& o.device.is_active && now >= c.start_timestamp && !submission_overflows(
                        c,
                        o.rewards,
                        reward,
                    ) ==> {
                        &&& c.policy == SettlementPolicy::Immediate && reward > old(
                            self,
                        ).vault.treasury ==> result == Err::<DataSubmitted, ErrorCode>(
                            ErrorCode::SettlementFailed,
                        ) && *final(self) == *old(self)
                        &&& (c.policy == SettlementPolicy::AccumulateThenClaim || reward <= old(
                            self,
                        ).vault.treasury) ==> (result matches Ok(ev) && {
                            &&& ev.device_id@ == device_id@
                            &&& ev.timestamp == now
                            &&& ev.pm25 == pm25
                            &&& ev.pm10 == pm10
                            &&& ev.temperature == temperature
                            &&& ev.humidity == humidity
                            &&& ev.reward_amount == reward
                            &&& ev.halving_epoch == epoch
                            &&& ev.owner == o.device.owner
                            &&& final(self).devices@.len() == old(self).devices@.len()
                            &&& forall|j: int|
                                0 <= j < old(self).devices@.len() && j != i
                                    ==> final(self).devices@[j] == old(self).devices@[j]
                            &&& ({
                                let d = final(self).devices@[i];
                                &&& d.device == o.device
                                &&& d.rewards.device_id@ == o.rewards.device_id@
                                &&& d.rewards.owner == o.rewards.owner
                                &&& d.rewards.accumulated == o.rewards.accumulated + (
                                if c.policy == SettlementPolicy::AccumulateThenClaim {
                                    reward
                                } else {
                                    0
                                })
                                &&& d.rewards.total_data_submitted == o.rewards.total_data_submitted
                                    + 1
                                &&& d.rewards.last_submission == now
                            })
                            &&& final(self).config == Some(
                                RewardConfig {
                                    total_data_submitted: (c.total_data_submitted + 1) as u64,
                                    total_rewards_distributed: (c.total_rewards_distributed
                                        + reward) as u64,
                                    ..c
                                },
                            )
                            &&& (c.policy == SettlementPolicy::AccumulateThenClaim
                                ==> final(self).vault == old(self).vault)
                            &&& (c.policy == SettlementPolicy::Immediate ==> {
                                &&& final(self).vault.minted == old(self).vault.minted
                                &&& final(self).vault.treasury == old(self).vault.treasury - reward
                                &&& spec_balance_of(final(self).vault.balances@, o.device.owner)
                                    == spec_balance_of(old(self).vault.balances@, o.device.owner)
                                    + reward
                                &&& forall|p: Principal|
                                    p != o.device.owner ==> spec_balance_of(
                                        final(self).vault.balances@,
                                        p,
                                    ) == spec_balance_of(old(self).vault.balances@, p)
                            })
                        })
                    }
                })
            },
    {
        let cfg = match self.config {
            None => {
                return Err(ErrorCode::ConfigNotInitialized);
            },
            Some(c) => c,
        };
        let i = match self.find_device(device_id) {
            None => {
                return Err(ErrorCode::DeviceNotFound);
            },
            Some(i) => i,
        };
        if !self.devices[i].device.is_active {
            return Err(ErrorCode::DeviceNotActive);
        }
        let (reward, epoch) = match halving_reward(cfg.initial_reward, cfg.start_timestamp, now) {
            Err(e) => {
                return Err(e);
            },
            Ok(pair) => pair,
        };
        let dr_total = match self.devices[i].rewards.total_data_submitted.checked_add(1) {
            None => {
                return Err(ErrorCode::ArithmeticOverflow);
            },
            Some(v) => v,
        };
        let cfg_total = match cfg.total_data_submitted.checked_add(1) {
            None => {
                return Err(ErrorCode::ArithmeticOverflow);
            },
            Some(v) => v,
        };
        let cfg_distributed = match cfg.total_rewards_distributed.checked_add(reward) {
            None => {
                return Err(ErrorCode::ArithmeticOverflow);
            },
            Some(v) => v,
        };
        let new_accumulated = match cfg.policy {
            SettlementPolicy::AccumulateThenClaim => match self.devices[i]
                .rewards
                .accumulated
                .checked_add(reward) {
                None => {
                    return Err(ErrorCode::ArithmeticOverflow);
                },
                Some(v) => v,
            },
            SettlementPolicy::Immediate => self.devices[i].rewards.accumulated,
        };
        let owner = self.devices[i].device.owner;
        match cfg.policy {
            SettlementPolicy::Immediate => {
                match self.vault.transfer_from_treasury(owner, reward) {
                    Err(e) => {
                        return Err(e);
                    },
                    Ok(()) => {},
                }
            },
            SettlementPolicy::AccumulateThenClaim => {},
        }
        self.devices[i].rewards.accumulated = new_accumulated;
        self.devices[i].rewards.total_data_submitted = dr_total;
        self.devices[i].rewards.last_submission = now;
        self.config = Some(
            RewardConfig {
                authority: cfg.authority,
                initial_reward: cfg.initial_reward,
                start_timestamp: cfg.start_timestamp,
                policy: cfg.policy,
                total_data_submitted: cfg_total,
                total_rewards_distributed: cfg_distributed,
            },
        );
        Ok(
            DataSubmitted {
                device_id: copy_id(device_id),
                timestamp: now,
                pm25,
                pm10,
                temperature,
                humidity,
                reward_amount: reward,
                halving_epoch: epoch,
                owner,
            },
        )
    }

    /// Pays a device's whole unclaimed balance out to its owner and resets
    /// the balance to zero, in one atomic step.  Only the current owner may
    /// claim; an empty balance fails `NoRewardsToClaim`, and if the treasury
    /// cannot cover the payout the balance stays untouched — no funds are
    /// lost and nothing is claimable twice.  Nothing changes on any error.
    pub fn claim_rewards(&mut self, device_id: &Vec<u8>, signer: Principal) -> (result: Result<
        u64,
        ErrorCode,
    >)
        requires
            old(self).wf(),
        ensures
            final(self).wf(),
            !has_device(old(self).devices@, device_id@) ==> result == Err::<u64, ErrorCode>(
                ErrorCode::DeviceNotFound,
            ) && *final(self) == *old(self),
            has_device(old(self).devices@, device_id@) ==> ({
                let i = device_index(old(self).devices@, device_id@);
                let o = old(self).devices@[i];
                &&& signer != o.device.owner ==> result == Err::<u64, ErrorCode>(
                    ErrorCode::Unauthorized,
                ) && *final(self) == *old(self)
                &&& signer == o.device.owner && o.rewards.accumulated == 0 ==> result == Err::<
                    u64,
                    ErrorCode,
                >(ErrorCode::NoRewardsToClaim) && *final(self) == *old(self)
                &&& signer == o.device.owner && o.rewards.accumulated > old(self).vault.treasury
                    ==> result == Err::<u64, ErrorCode>(ErrorCode::SettlementFailed) && *final(self)
                    == *old(self)
                &&& signer == o.device.owner && 0 < o.rewards.accumulated <= old(
                    self,
                ).vault.treasury ==> result == Ok::<u64, ErrorCode>(o.rewards.accumulated) && {
                    &&& final(self).devices@.len() == old(self).devices@.len()
                    &&& forall|j: int|
                        0 <= j < old(self).devices@.len() && j != i ==> final(self).devices@[j]
                            == old(self).devices@[j]
                    &&& ({
                        let d = final(self).devices@[i];
                        &&& d.device == o.device
                        &&& d.rewards.device_id@ == o.rewards.device_id@
                        &&& d.rewards.owner == o.rewards.owner
                        &&& d.rewards.accumulated == 0
                        &&& d.rewards.total_data_submitted == o.rewards.total_data_submitted
                        &&& d.rewards.last_submission == o.rewards.last_submission
                    })
                    &&& final(self).config == old(self).config
                    &&& final(self).vault.minted == old(self).vault.minted
                    &&& final(self).vault.treasury == old(self).vault.treasury
                        - o.rewards.accumulated
                    &&& spec_balance_of(final(self).vault.balances@, o.device.owner)
                        == spec_balance_of(old(self).vault.balances@, o.device.owner)
                        + o.rewards.accumulated
                    &&& forall|p: Principal|
                        p != o.device.owner ==> spec_balance_of(final(self).vault.balances@, p)
                            == spec_balance_of(old(self).vault.balances@, p)
                }
            }),
    {
        let i = match self.find_device(device_id) {
            None => {
                return Err(ErrorCode::DeviceNotFound);
            },
            Some(i) => i,
        };
        if self.devices[i].device.owner != signer {
            return Err(ErrorCode::Unauthorized);
        }
        let amount = self.devices[i].rewards.accumulated;
        if amount == 0 {
            return Err(ErrorCode::NoRewardsToClaim);
        }
        let owner = self.devices[i].device.owner;
        match self.vault.transfer_from_treasury(owner, amount) {
            Err(e) => {
                return Err(e);
            },
            Ok(()) => {},
        }
        self.devices[i].rewards.accumulated = 0;
        Ok(amount)
    }
}

/// Ownership invariant: in every well-formed state — so after every
/// operation — a device's reward ledger names exactly the owner of its
/// registry record.  Whoever submits or claims, the reward goes to the
/// device's current owner.
pub proof fn lemma_owner_in_sync(system: Airvent, i: int)
    requires
        system.wf(),
        0 <= i < system.devices@.len(),
    ensures
        system.devices@[i].rewards.owner == system.devices@[i].device.owner,
{
}

/// Conservation of tokens: once the supply has been minted, the treasury
/// and all paid-out balances always add up to exactly the total supply —
/// no operation creates or destroys tokens.
pub proof fn lemma_supply_conserved(system: Airvent)
    requires
        system.wf(),
        system.vault.minted,
    ensures
        system.vault.treasury + crate::vault::sum_amounts(system.vault.balances@)
            == TOTAL_SUPPLY as int,
{
}

/// Under the immediate settlement policy no unclaimed balance ever accrues:
/// every device's `accumulated` is zero in every reachable state.
pub proof fn lemma_immediate_policy_no_balance(system: Airvent, i: int)
    requires
        system.wf(),
        system.config matches Some(c) && c.policy == SettlementPolicy::Immediate,
        0 <= i < system.devices@.len(),
    ensures
        system.devices@[i].rewards.accumulated == 0,
{
}

/// A fresh copy of a device ID's bytes.
fn copy_id(v: &Vec<u8>) -> (r: Vec<u8>)
    ensures
        r@ == v@,
{
    let n = v.len();
    let mut r: Vec<u8> = Vec::new();
    let mut i: usize = 0;
    while i < n
        invariant
            n == v@.len(),
            0 <= i <= n,
            r@ =~= v@.subrange(0, i as int),
        decreases n - i,
    {
        r.push(v[i]);
        i = i + 1;
    }
    proof {
        assert(r@ =~= v@);
    }
    r
}

/// Whether two device IDs hold the same bytes.
fn ids_equal(a: &Vec<u8>, b: &Vec<u8>) -> (r: bool)
    ensures
        r == (a@ == b@),
{
    let r = a == b;
    proof {
        if r {
            assert(a@ =~= b@);
        }
    }
    r
}

} // verus!
