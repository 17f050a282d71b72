//! Error kinds reported by the reward system.
//!
//! Every failure aborts the whole operation before any mutation is applied
//! and reports a specific kind, so callers can tell permanent rejections
//! (bad device ID, unauthorized signer) from transient ones (treasury
//! temporarily short of funds).

use vstd::prelude::*;

verus! {

/// The reason an operation was rejected.  No state changes on any error.
#[derive(Clone, Copy, Debug, PartialEq, Eq, Structural)]
pub enum ErrorCode {
    /// The device ID is empty.
    DeviceIdEmpty,
    /// The device ID is longer than the 32-byte maximum.
    DeviceIdTooLong,
    /// A device with this ID is already registered.
    DeviceAlreadyExists,
    /// No device with this ID is registered.
    DeviceNotFound,
    /// The device has been deactivated.
    DeviceNotActive,
    /// The signer is not the current owner of the device.
    Unauthorized,
    /// The device has no unclaimed balance.
    NoRewardsToClaim,
    /// The supplied time predates the halving clock's start (or is negative
    /// at initialization): a configuration or clock error.
    InvalidTimestamp,
    /// A counter or balance update would overflow; the operation is aborted.
    ArithmeticOverflow,
    /// The treasury could not cover the transfer; nothing was paid or reset.
    SettlementFailed,
    /// A one-time initialization step was attempted a second time.
    AlreadyInitialized,
    /// The reward configuration has not been initialized yet.
    ConfigNotInitialized,
}

} // verus!
