//! The halving schedule: a pure function from elapsed time to the reward
//! granted per data submission.
//!
//! The reward starts at a configured value and halves every
//! [`HALVING_INTERVAL_SECONDS`] (four years), by integer division: in epoch
//! `e` the reward is the initial reward divided by `2^e`.  Once the epoch
//! reaches the bit width of the reward type the reward is exactly zero —
//! never a wraparound or a panic.

use vstd::prelude::*;
use vstd::arithmetic::div_mod::{
    lemma_basic_div, lemma_div_is_ordered_by_denominator, lemma_div_pos_is_pos,
};
use vstd::arithmetic::power2::{lemma2_to64, lemma_pow2_pos, lemma_pow2_strictly_increases, pow2};
use vstd::bits::lemma_u64_shr_is_div;

use crate::constants::HALVING_INTERVAL_SECONDS;
use crate::errors::ErrorCode;

verus! {

/// Halving epoch index at time `now` for a halving clock started at `start`:
/// the number of whole halving intervals elapsed.
pub open spec fn epoch_at(start: int, now: int) -> int {
    (now - start) / (HALVING_INTERVAL_SECONDS as int)
}

/// Reward granted per submission in halving epoch `epoch`: the initial
/// reward integer-divided by `2^epoch` (equivalently, right-shifted by
/// `epoch`, saturating to zero past the bit width).
pub open spec fn reward_for_epoch(initial_reward: u64, epoch: nat) -> nat {
    initial_reward as nat / pow2(epoch)
}

/// The reward in every epoch equals the initial reward right-shifted by the
/// epoch index, and is exactly zero once the shift distance reaches the bit
/// width of the reward type.
pub proof fn lemma_reward_is_right_shift(initial_reward: u64, epoch: u64)
    ensures
        epoch < 64 ==> reward_for_epoch(initial_reward, epoch as nat) == initial_reward >> epoch,
        epoch >= 64 ==> reward_for_epoch(initial_reward, epoch as nat) == 0,
{
    if epoch < 64 {
        lemma_u64_shr_is_div(initial_reward, epoch);
    } else {
        lemma2_to64();
        if epoch > 64 {
            lemma_pow2_strictly_increases(64, epoch as nat);
        }
        lemma_basic_div(initial_reward as int, pow2(epoch as nat) as int);
    }
}

/// The reward never increases from one epoch to a later one.
pub proof fn lemma_reward_nonincreasing(initial_reward: u64, epoch1: nat, epoch2: nat)
    requires
        epoch1 <= epoch2,
    ensures
        reward_for_epoch(initial_reward, epoch2) <= reward_for_epoch(initial_reward, epoch1),
{
    lemma_pow2_pos(epoch1);
    if epoch1 < epoch2 {
        lemma_pow2_strictly_increases(epoch1, epoch2);
    }
    lemma_div_is_ordered_by_denominator(
        initial_reward as int,
        pow2(epoch1) as int,
        pow2(epoch2) as int,
    );
}

/// Computes the halving epoch and the reward per submission at time `now`,
/// for a halving clock started at `start_timestamp`.
///
/// A `now` before the start of the clock is a configuration or clock error
/// and is rejected as `InvalidTimestamp`; nothing is computed from it.
pub fn halving_reward(initial_reward: u64, start_timestamp: i64, now: i64) -> (result: Result<
    (u64, u64),
    ErrorCode,
>)
    requires
        start_timestamp >= 0,
    ensures
        now < start_timestamp ==> result == Err::<(u64, u64), ErrorCode>(
            ErrorCode::InvalidTimestamp,
        ),
        now >= start_timestamp ==> (result matches Ok(re) && {
            &&& re.1 == epoch_at(start_timestamp as int, now as int)
            &&& re.0 == reward_for_epoch(initial_reward, re.1 as nat)
        }),
{
    if now < start_timestamp {
        return Err(ErrorCode::InvalidTimestamp);
    }
    let elapsed: u64 = (now - start_timestamp) as u64;
    let interval: u64 = HALVING_INTERVAL_SECONDS as u64;
    let epoch: u64 = elapsed / interval;
    proof {
        lemma_div_pos_is_pos(elapsed as int, interval as int);
        lemma_reward_is_right_shift(initial_reward, epoch);
    }
    let reward: u64 = if epoch >= 64 {
        0u64
    } else {
        initial_reward >> epoch
    };
    Ok((reward, epoch))
}

} // verus!
