//! Averages and statistics over the buckets of a ring buffer. None of them
//! changes the buffer.

use vstd::prelude::*;
use crate::twap::error::ErrorCode;
use crate::twap::state::{PriceBucket, TwapRingBuffer};

verus! {

/// What a bucket adds to the weighted sum: its price times its volume where it
/// carries both, else nothing.
pub open spec fn weighted_price(bucket: PriceBucket) -> nat {
    if bucket.is_populated() {
        (bucket.price * bucket.volume) as nat
    } else {
        0
    }
}

/// What a bucket adds to the weight: its volume where it carries a price too,
/// else nothing.
pub open spec fn weight(bucket: PriceBucket) -> nat {
    if bucket.is_populated() {
        bucket.volume as nat
    } else {
        0
    }
}

/// Sum of price times volume over the populated buckets.
pub open spec fn weighted_sum(buckets: Seq<PriceBucket>) -> nat
    decreases buckets.len(),
{
    if buckets.len() == 0 {
        0
    } else {
        weighted_price(buckets.first()) + weighted_sum(buckets.drop_first())
    }
}

/// Sum of the volumes of the populated buckets.
pub open spec fn weight_sum(buckets: Seq<PriceBucket>) -> nat
    decreases buckets.len(),
{
    if buckets.len() == 0 {
        0
    } else {
        weight(buckets.first()) + weight_sum(buckets.drop_first())
    }
}

/// The mean price of the populated buckets, each weighted by its volume and
/// the quotient rounded down: an overflow where the weighted sum leaves 128
/// bits, no value where no bucket is populated.
pub open spec fn weighted_mean(buckets: Seq<PriceBucket>) -> Result<Option<u128>, ErrorCode> {
    if weighted_sum(buckets) > u128::MAX {
        Err(ErrorCode::ArithmeticOverflow)
    } else if weight_sum(buckets) == 0 {
        Ok(None)
    } else {
        Ok(Some((weighted_sum(buckets) / weight_sum(buckets)) as u128))
    }
}

/// The populated buckets met on the way from index `from` down to index 0,
/// newest first, at most `limit` of them. Indices past the end hold nothing.
pub open spec fn recent_populated(buckets: Seq<PriceBucket>, from: int, limit: nat) -> Seq<
    PriceBucket,
>
    decreases from + 1,
{
    if from < 0 || limit == 0 {
        Seq::empty()
    } else if from < buckets.len() && buckets[from].is_populated() {
        seq![buckets[from]] + recent_populated(buckets, from - 1, (limit - 1) as nat)
    } else {
        recent_populated(buckets, from - 1, limit)
    }
}

/// Starting the walk past the end is the same as starting it at the last
/// bucket.
pub proof fn lemma_recent_populated_from_end(buckets: Seq<PriceBucket>, from: int, limit: nat)
    requires
        from >= buckets.len() - 1,
    ensures
        recent_populated(buckets, from, limit) == recent_populated(
            buckets,
            buckets.len() - 1,
            limit,
        ),
    decreases from + 1,
{
    if from > buckets.len() - 1 && from >= 0 && limit > 0 {
        lemma_recent_populated_from_end(buckets, from - 1, limit);
    }
}

/// Adds one bucket to a running weighted sum and weight; `None` where the
/// weighted sum leaves 128 bits.
fn accumulate(weighted: u128, weights: u128, bucket: &PriceBucket) -> (sums: Option<(u128, u128)>)
    requires
        weights + u64::MAX <= u128::MAX,
    ensures
        weighted + weighted_price(*bucket) > u128::MAX ==> sums is None,
        weighted + weighted_price(*bucket) <= u128::MAX ==> sums == Some(
            ((weighted + weighted_price(*bucket)) as u128, (weights + weight(*bucket)) as u128),
        ),
{
    if bucket.volume > 0 && bucket.price > 0 {
        match bucket.price.checked_mul(bucket.volume as u128) {
            None => None,
            Some(product) => match weighted.checked_add(product) {
                None => None,
                Some(sum) => Some((sum, weights + bucket.volume as u128)),
            },
        }
    } else {
        Some((weighted, weights))
    }
}

impl TwapRingBuffer {
    /// The time-weighted average price: the mean of the prices of all populated
    /// buckets, each weighted by its volume.
    pub fn calculate_twap(&self) -> (twap: Result<Option<u128>, ErrorCode>)
        ensures
            twap == weighted_mean(self.price_buckets@),
    {
        let ghost buckets = self.price_buckets@;
        let mut total_weighted_price: u128 = 0;
        let mut total_weight: u128 = 0;
        let mut i: usize = 0;
        proof {
            assert(buckets.skip(0) =~= buckets);
        }
        while i < self.price_buckets.len()
            invariant
                i <= buckets.len(),
                buckets == self.price_buckets@,
                total_weighted_price + weighted_sum(buckets.skip(i as int)) == weighted_sum(
                    buckets,
                ),
                total_weight + weight_sum(buckets.skip(i as int)) == weight_sum(buckets),
                total_weight <= i * u64::MAX,
            decreases buckets.len() - i,
        {
            proof {
                assert(buckets.skip(i as int).drop_first() =~= buckets.skip(i + 1));
            }
            match accumulate(total_weighted_price, total_weight, &self.price_buckets[i]) {
                None => {
                    return Err(ErrorCode::ArithmeticOverflow);
                },
                Some((weighted, weights)) => {
                    total_weighted_price = weighted;
                    total_weight = weights;
                },
            }
            i = i + 1;
        }
        if total_weight > 0 {
            Ok(Some(total_weighted_price / total_weight))
        } else {
            Ok(None)
        }
    }

    /// The volume-weighted average price of the most recent buckets: the mean
    /// over at most `bucket_count` populated buckets, found by walking from the
    /// current index down to index 0.
    pub fn calculate_vwap(&self, bucket_count: u32) -> (vwap: Result<Option<u128>, ErrorCode>)
        ensures
            vwap == weighted_mean(
                recent_populated(
                    self.price_buckets@,
                    self.current_bucket_index as int,
                    bucket_count as nat,
                ),
            ),
    {
        let ghost buckets = self.price_buckets@;
        let ghost window = recent_populated(
            buckets,
            self.current_bucket_index as int,
            bucket_count as nat,
        );
        let mut total_weighted_price: u128 = 0;
        let mut total_weight: u128 = 0;
        let mut buckets_processed: u32 = 0;
        let mut remaining: usize = if (self.current_bucket_index as usize)
            < self.price_buckets.len() {
            self.current_bucket_index as usize + 1
        } else {
            self.price_buckets.len()
        };
        proof {
            if self.current_bucket_index >= buckets.len() {
                lemma_recent_populated_from_end(
                    buckets,
                    self.current_bucket_index as int,
                    bucket_count as nat,
                );
            }
        }
        while buckets_processed < bucket_count && remaining > 0
            invariant
                remaining <= buckets.len(),
                buckets == self.price_buckets@,
                window == recent_populated(
                    buckets,
                    self.current_bucket_index as int,
                    bucket_count as nat,
                ),
                buckets_processed <= bucket_count,
                total_weighted_price + weighted_sum(
                    recent_populated(
                        buckets,
                        remaining - 1,
                        (bucket_count - buckets_processed) as nat,
                    ),
                ) == weighted_sum(window),
                total_weight + weight_sum(
                    recent_populated(
                        buckets,
                        remaining - 1,
                        (bucket_count - buckets_processed) as nat,
                    ),
                ) == weight_sum(window),
                total_weight <= buckets_processed * u64::MAX,
            decreases remaining,
        {
            let bucket = &self.price_buckets[remaining - 1];
            proof {
                if bucket.is_populated() {
                    let rest = recent_populated(
                        buckets,
                        remaining - 2,
                        (bucket_count - buckets_processed - 1) as nat,
                    );
                    let found = seq![*bucket] + rest;
                    assert(found == recent_populated(
                        buckets,
                        remaining - 1,
                        (bucket_count - buckets_processed) as nat,
                    ));
                    assert(found.first() == *bucket);
                    assert(found.drop_first() =~= rest);
                    assert(weighted_sum(found) == weighted_price(*bucket) + weighted_sum(rest));
                    assert(weight_sum(found) == weight(*bucket) + weight_sum(rest));
                }
            }
            if bucket.volume > 0 && bucket.price > 0 {
                match accumulate(total_weighted_price, total_weight, bucket) {
                    None => {
                        return Err(ErrorCode::ArithmeticOverflow);
                    },
                    Some((weighted, weights)) => {
                        total_weighted_price = weighted;
                        total_weight = weights;
                    },
                }
                buckets_processed = buckets_processed + 1;
            }
            remaining = remaining - 1;
        }
        if total_weight > 0 {
            Ok(Some(total_weighted_price / total_weight))
        } else {
            Ok(None)
        }
    }
}

} // verus!
