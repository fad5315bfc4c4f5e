//! The predicates of the sampling policy and the buyback price.
//!
//! Each predicate is stated over the integers. The price predicate and the
//! buyback price are computed in 128 bits and fail with
//! [`ErrorCode::ArithmeticOverflow`] where an intermediate value does not fit.

use vstd::prelude::*;
use crate::twap::error::ErrorCode;
use crate::twap::state::{TwapConfig, BPS_DENOMINATOR, SLOTS_PER_HOUR};

verus! {

/// Largest value of a signed 128-bit integer, the range in which a price
/// change is computed.
pub const PRICE_CHANGE_MAX: u128 = 0x7fff_ffff_ffff_ffff_ffff_ffff_ffff_ffff;

/// Distance between two integers.
pub open spec fn distance(a: int, b: int) -> int {
    if a >= b {
        a - b
    } else {
        b - a
    }
}

/// Change from `last` to `current` in basis points of `last`, rounded down;
/// 0 where there is no last price.
pub open spec fn price_change_bps(current: int, last: int) -> int {
    if last == 0 {
        0
    } else {
        distance(current, last) * 10000 / last
    }
}

/// Whether computing the price change leaves the signed 128-bit range: a price
/// does not fit, or the distance times 10000 does not. Without a last price
/// nothing is computed.
pub open spec fn price_change_overflows(current: int, last: int) -> bool {
    last != 0 && (current > PRICE_CHANGE_MAX || last > PRICE_CHANGE_MAX || distance(current, last)
        * 10000 > PRICE_CHANGE_MAX)
}

/// Outcome of comparing the price change with `threshold_bps`.
pub open spec fn price_change_reaches(current: int, last: int, threshold_bps: int) -> Result<
    bool,
    ErrorCode,
> {
    if price_change_overflows(current, last) {
        Err(ErrorCode::ArithmeticOverflow)
    } else {
        Ok(price_change_bps(current, last) >= threshold_bps)
    }
}

/// `price` less `discount_bps` basis points, rounded down.
pub open spec fn discounted_price(price: int, discount_bps: int) -> int {
    price * (10000 - discount_bps) / 10000
}

/// Outcome of discounting `price`: an overflow where the discount is above one
/// whole or where the price times what is left of the whole leaves 128 bits.
pub open spec fn buyback_price(price: int, discount_bps: int) -> Result<u128, ErrorCode> {
    if discount_bps > 10000 || price * (10000 - discount_bps) > u128::MAX {
        Err(ErrorCode::ArithmeticOverflow)
    } else {
        Ok(discounted_price(price, discount_bps) as u128)
    }
}

impl TwapConfig {
    /// Time predicate: at least `min_update_interval` ticks lie between the last
    /// commit and `now`.
    pub open spec fn by_time(&self, now: int) -> bool {
        now - self.last_update_slot >= self.min_update_interval
    }

    /// Volume predicate: the accumulated volume reaches `min_volume_threshold`.
    pub open spec fn by_volume(&self, accumulated: int) -> bool {
        accumulated >= self.min_volume_threshold
    }

    /// Price predicate: the change from `last` to `current` reaches
    /// `min_price_change_bps`.
    pub open spec fn by_price(&self, current: int, last: int) -> bool {
        price_change_bps(current, last) >= self.min_price_change_bps
    }

    /// Whether an hour has passed at `now` since the current hour began.
    pub open spec fn hour_rolled_over(&self, now: int) -> bool {
        now - self.last_hour_slot >= 3600
    }

    /// Rate predicate: the hour has rolled over, or fewer than
    /// `max_updates_per_hour` commits were counted in it.
    pub open spec fn by_rate(&self, now: int) -> bool {
        self.hour_rolled_over(now) || self.updates_this_hour < self.max_updates_per_hour
    }

    /// Whether enough time has passed since the last commit.
    pub fn can_update_by_time(&self, current_slot: u64) -> (pass: bool)
        ensures
            pass == self.by_time(current_slot as int),
    {
        current_slot >= self.last_update_slot && current_slot - self.last_update_slot
            >= self.min_update_interval
    }

    /// Whether the accumulated volume reaches the threshold.
    pub fn can_update_by_volume(&self, accumulated_volume: u64) -> (pass: bool)
        ensures
            pass == self.by_volume(accumulated_volume as int),
    {
        accumulated_volume >= self.min_volume_threshold
    }

    /// Whether the price has changed enough since the last commit.
    pub fn can_update_by_price(&self, current_price: u128, last_price: u128) -> (pass: Result<
        bool,
        ErrorCode,
    >)
        ensures
            pass == price_change_reaches(
                current_price as int,
                last_price as int,
                self.min_price_change_bps as int,
            ),
            pass is Ok ==> pass.unwrap() == self.by_price(current_price as int, last_price as int),
    {
        change_reaches(current_price, last_price, self.min_price_change_bps)
    }

    /// Whether the price has changed so much that an update counts as an
    /// emergency. The commit decision does not consult this.
    pub fn needs_emergency_update(&self, current_price: u128, last_price: u128) -> (needed: Result<
        bool,
        ErrorCode,
    >)
        ensures
            needed == price_change_reaches(
                current_price as int,
                last_price as int,
                self.emergency_update_threshold as int,
            ),
    {
        change_reaches(current_price, last_price, self.emergency_update_threshold)
    }

    /// Whether the hourly limit leaves room for one more commit.
    pub fn can_update_by_rate(&self, current_slot: u64) -> (pass: bool)
        ensures
            pass == self.by_rate(current_slot as int),
    {
        if current_slot >= self.last_hour_slot && current_slot - self.last_hour_slot
            >= SLOTS_PER_HOUR {
            return true;
        }
        self.updates_this_hour < self.max_updates_per_hour
    }

    /// The price at which fractions are bought back: `twap_price` less the
    /// policy's discount.
    pub fn calculate_buyback_price(&self, twap_price: u128) -> (price: Result<u128, ErrorCode>)
        ensures
            price == buyback_price(twap_price as int, self.buyback_discount_bps as int),
    {
        if self.buyback_discount_bps as u128 > BPS_DENOMINATOR {
            return Err(ErrorCode::ArithmeticOverflow);
        }
        let discount_multiplier: u128 = BPS_DENOMINATOR - self.buyback_discount_bps as u128;
        match twap_price.checked_mul(discount_multiplier) {
            None => Err(ErrorCode::ArithmeticOverflow),
            Some(product) => Ok(product / BPS_DENOMINATOR),
        }
    }
}

/// Compares the price change from `last_price` to `current_price` with
/// `threshold_bps`.
fn change_reaches(current_price: u128, last_price: u128, threshold_bps: u16) -> (pass: Result<
    bool,
    ErrorCode,
>)
    ensures
        pass == price_change_reaches(
            current_price as int,
            last_price as int,
            threshold_bps as int,
        ),
{
    if last_price == 0 {
        return Ok(0 >= threshold_bps);
    }
    if current_price > PRICE_CHANGE_MAX || last_price > PRICE_CHANGE_MAX {
        return Err(ErrorCode::ArithmeticOverflow);
    }
    let change: u128 = if current_price >= last_price {
        current_price - last_price
    } else {
        last_price - current_price
    };
    match change.checked_mul(BPS_DENOMINATOR) {
        None => Err(ErrorCode::ArithmeticOverflow),
        Some(scaled) => {
            if scaled > PRICE_CHANGE_MAX {
                Err(ErrorCode::ArithmeticOverflow)
            } else {
                let bps: u128 = scaled / last_price;
                Ok(bps >= threshold_bps as u128)
            }
        },
    }
}

} // verus!
