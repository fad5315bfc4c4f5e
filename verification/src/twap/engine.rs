//! The commit decision and the transition that one sample causes.
//!
//! A sample is committed where all four predicates of the policy pass, and is
//! otherwise only added to the accumulated volume. The transition is stated as
//! three functions of the state before the call: what the call returns, the
//! policy after it and the store after it. A call that fails changes nothing.

use vstd::prelude::*;
use crate::twap::error::ErrorCode;
use crate::twap::policy::price_change_overflows;
use crate::twap::state::{RingBufferView, TwapConfig, TwapRingBuffer, SLOTS_PER_HOUR};
use crate::twap::store::sample_bucket;

verus! {

/// Whether all four predicates pass for a sample of `price` and `volume` at
/// tick `now`: time, volume (with the sample's own volume added to the
/// accumulated one), price change and rate.
pub open spec fn gate_passes(
    config: TwapConfig,
    store: RingBufferView,
    price: u128,
    volume: u64,
    now: u64,
) -> bool {
    &&& config.by_time(now as int)
    &&& config.by_volume(store.volume_accumulator + volume)
    &&& config.by_price(price as int, store.last_update_price as int)
    &&& config.by_rate(now as int)
}

/// Whether the decision cannot be computed: the accumulated volume with the
/// sample's leaves 64 bits, or the price change is needed (time and volume
/// pass) and cannot be computed.
pub open spec fn gate_overflows(
    config: TwapConfig,
    store: RingBufferView,
    price: u128,
    volume: u64,
    now: u64,
) -> bool {
    ||| store.volume_accumulator + volume > u64::MAX
    ||| (config.by_time(now as int) && config.by_volume(store.volume_accumulator + volume)
        && price_change_overflows(price as int, store.last_update_price as int))
}

/// The decision: whether to commit, or an overflow.
pub open spec fn gate(
    config: TwapConfig,
    store: RingBufferView,
    price: u128,
    volume: u64,
    now: u64,
) -> Result<bool, ErrorCode> {
    if gate_overflows(config, store, price, volume, now) {
        Err(ErrorCode::ArithmeticOverflow)
    } else {
        Ok(gate_passes(config, store, price, volume, now))
    }
}

impl RingBufferView {
    /// The store after a sample was committed at tick `now`: the sample fills
    /// the current bucket, nothing is accumulated any more, the sample's price
    /// is the last one, and from tick `bucket_duration_slots` on the store has
    /// moved on to the next bucket.
    pub open spec fn committed(
        self,
        config: TwapConfig,
        price: u128,
        volume: u64,
        now: u64,
    ) -> RingBufferView {
        let filled = RingBufferView {
            volume_accumulator: 0,
            last_update_price: price,
            ..self.written(sample_bucket(price, volume, now))
        };
        if now >= config.bucket_duration_slots {
            filled.advanced()
        } else {
            filled
        }
    }

    /// The store after a sample was only accumulated.
    pub open spec fn accumulated(self, volume: u64) -> RingBufferView {
        RingBufferView { volume_accumulator: (self.volume_accumulator + volume) as u64, ..self }
    }
}

impl TwapConfig {
    /// The policy after a commit at tick `now`: the commit is the last one, and
    /// it is counted in the current hour, or is the first of a new hour that
    /// begins at `now`.
    pub open spec fn committed(self, now: u64) -> TwapConfig {
        if self.hour_rolled_over(now as int) {
            TwapConfig { last_update_slot: now, updates_this_hour: 1, last_hour_slot: now, ..self }
        } else {
            TwapConfig {
                last_update_slot: now,
                updates_this_hour: (self.updates_this_hour + 1) as u32,
                ..self
            }
        }
    }
}

/// What submitting a sample returns: whether it was committed, or an overflow
/// where the decision overflows or the commit takes the sum of the volumes out of
/// 64 bits.
pub open spec fn sample_result(
    config: TwapConfig,
    store: RingBufferView,
    price: u128,
    volume: u64,
    now: u64,
) -> Result<bool, ErrorCode> {
    if gate_overflows(config, store, price, volume, now) {
        Err(ErrorCode::ArithmeticOverflow)
    } else if !gate_passes(config, store, price, volume, now) {
        Ok(false)
    } else if store.write_overflows(sample_bucket(price, volume, now)) {
        Err(ErrorCode::ArithmeticOverflow)
    } else {
        Ok(true)
    }
}

/// The store after a sample was submitted.
pub open spec fn store_after_sample(
    config: TwapConfig,
    store: RingBufferView,
    price: u128,
    volume: u64,
    now: u64,
) -> RingBufferView {
    match sample_result(config, store, price, volume, now) {
        Ok(true) => store.committed(config, price, volume, now),
        Ok(false) => store.accumulated(volume),
        Err(_) => store,
    }
}

/// The policy after a sample was submitted.
pub open spec fn config_after_sample(
    config: TwapConfig,
    store: RingBufferView,
    price: u128,
    volume: u64,
    now: u64,
) -> TwapConfig {
    match sample_result(config, store, price, volume, now) {
        Ok(true) => config.committed(now),
        _ => config,
    }
}

/// Decides whether a sample is committed.
pub fn should_update_ring_buffer(
    ring_buffer: &TwapRingBuffer,
    config: &TwapConfig,
    slot: u64,
    current_price: u128,
    current_volume: u64,
) -> (commit: Result<bool, ErrorCode>)
    ensures
        commit == gate(*config, ring_buffer@, current_price, current_volume, slot),
{
    let total_volume: u64 = match ring_buffer.volume_accumulator.checked_add(current_volume) {
        None => {
            return Err(ErrorCode::ArithmeticOverflow);
        },
        Some(total) => total,
    };
    if !config.can_update_by_time(slot) {
        return Ok(false);
    }
    if !config.can_update_by_volume(total_volume) {
        return Ok(false);
    }
    match config.can_update_by_price(current_price, ring_buffer.last_update_price) {
        Err(error) => {
            return Err(error);
        },
        Ok(false) => {
            return Ok(false);
        },
        Ok(true) => {},
    }
    Ok(config.can_update_by_rate(slot))
}

/// Submits one sample: commits it where all predicates pass, else adds its volume
/// to the accumulated volume.
pub fn process_swap_data(
    ring_buffer: &mut TwapRingBuffer,
    config: &mut TwapConfig,
    slot: u64,
    price: u128,
    volume: u64,
) -> (committed: Result<bool, ErrorCode>)
    requires
        old(ring_buffer).wf(),
    ensures
        committed == sample_result(*old(config), old(ring_buffer)@, price, volume, slot),
        *final(config) == config_after_sample(
            *old(config),
            old(ring_buffer)@,
            price,
            volume,
            slot,
        ),
        final(ring_buffer)@ == store_after_sample(
            *old(config),
            old(ring_buffer)@,
            price,
            volume,
            slot,
        ),
        final(ring_buffer).wf(),
{
    match should_update_ring_buffer(ring_buffer, config, slot, price, volume) {
        Err(error) => Err(error),
        Ok(false) => {
            ring_buffer.volume_accumulator = ring_buffer.volume_accumulator + volume;
            Ok(false)
        },
        Ok(true) => {
            match ring_buffer.update_current_bucket(price, volume, slot) {
                Err(error) => {
                    return Err(error);
                },
                Ok(()) => {},
            }
            ring_buffer.volume_accumulator = 0;
            ring_buffer.last_update_price = price;
            if slot >= config.bucket_duration_slots {
                ring_buffer.advance_bucket();
            }
            let new_hour: bool = slot >= config.last_hour_slot && slot - config.last_hour_slot
                >= SLOTS_PER_HOUR;
            config.last_update_slot = slot;
            if new_hour {
                config.updates_this_hour = 1;
                config.last_hour_slot = slot;
            } else {
                config.updates_this_hour = config.updates_this_hour + 1;
            }
            Ok(true)
        },
    }
}

} // verus!
