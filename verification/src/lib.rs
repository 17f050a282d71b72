//! Verified core of an IoT-device reward system.
//!
//! A fleet of registered devices earns a time-decaying token reward for each
//! data submission.  The reward per submission halves at a fixed interval
//! (four years) from the moment the reward configuration is initialized.
//! Rewards are settled either immediately on every submission or accrued to a
//! per-device balance and paid out on demand, from a fixed-supply treasury.
//!
//! The hosting runtime (clock, wire transport, persistence) lives outside this
//! crate; every operation here is a synchronous, atomic step on plain values,
//! with the current time injected by the caller.

pub mod constants;
pub mod contract;
pub mod errors;
pub mod halving;
pub mod state;
pub mod vault;
