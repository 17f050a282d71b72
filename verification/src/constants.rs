//! Fixed parameters of the reward system.

use vstd::prelude::*;

verus! {

/// Total token supply: one billion tokens with nine decimal places,
/// in smallest (base) units.  Minted to the treasury exactly once.
pub const TOTAL_SUPPLY: u64 = 1_000_000_000 * 1_000_000_000;

/// Maximum device ID length in bytes.
pub const MAX_DEVICE_ID_LEN: usize = 32;

/// Halving interval: four years in seconds.
pub const HALVING_INTERVAL_SECONDS: i64 = 4 * 365 * 24 * 60 * 60;

} // verus!
