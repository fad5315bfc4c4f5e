//! Writing the ring buffer: a commit fills the current bucket, and moving on
//! clears the next one. Both keep `total_volume` equal to the sum of the
//! volumes of all buckets.

use vstd::prelude::*;
use crate::twap::error::ErrorCode;
use crate::twap::state::{volume_sum, PriceBucket, RingBufferView, TwapRingBuffer};

verus! {

/// Replacing one bucket changes the sum of the volumes by the difference of
/// the two volumes.
pub proof fn lemma_volume_sum_update(buckets: Seq<PriceBucket>, index: int, bucket: PriceBucket)
    requires
        0 <= index < buckets.len(),
    ensures
        volume_sum(buckets.update(index, bucket)) + buckets[index].volume == volume_sum(buckets)
            + bucket.volume,
    decreases buckets.len(),
{
    let updated = buckets.update(index, bucket);
    if index == 0 {
        assert(updated.drop_first() =~= buckets.drop_first());
    } else {
        assert(updated.drop_first() =~= buckets.drop_first().update(index - 1, bucket));
        lemma_volume_sum_update(buckets.drop_first(), index - 1, bucket);
    }
}

/// Going round a ring of `count` places: the place after the last is the
/// first, and the place after any other is the one that follows it.
pub proof fn lemma_next_index(index: int, count: int)
    requires
        0 <= index < count,
    ensures
        index == count - 1 ==> (index + 1) % count == 0,
        index < count - 1 ==> (index + 1) % count == index + 1,
{
    if index == count - 1 {
        vstd::arithmetic::div_mod::lemma_mod_self_0(count);
    } else {
        vstd::arithmetic::div_mod::lemma_small_mod((index + 1) as nat, count as nat);
    }
}

/// The bucket that a committed sample fills.
pub open spec fn sample_bucket(price: u128, volume: u64, timestamp: u64) -> PriceBucket {
    PriceBucket { price, volume, timestamp }
}

impl RingBufferView {
    /// The index after the current one, going round at the end.
    pub open spec fn next_index(self) -> int {
        (self.current_bucket_index + 1) % (self.bucket_count as int)
    }

    /// The store after `bucket` was written at the current index.
    pub open spec fn written(self, bucket: PriceBucket) -> RingBufferView {
        let buckets = self.price_buckets.update(self.current_bucket_index as int, bucket);
        RingBufferView {
            price_buckets: buckets,
            total_volume: volume_sum(buckets) as u64,
            ..self
        }
    }

    /// Whether writing `bucket` at the current index takes the sum of the
    /// volumes out of 64 bits.
    pub open spec fn write_overflows(self, bucket: PriceBucket) -> bool {
        volume_sum(self.price_buckets.update(self.current_bucket_index as int, bucket)) > u64::MAX
    }

    /// Outcome of writing `bucket` at the current index.
    pub open spec fn write_result(self, bucket: PriceBucket) -> Result<(), ErrorCode> {
        if self.write_overflows(bucket) {
            Err(ErrorCode::ArithmeticOverflow)
        } else {
            Ok(())
        }
    }

    /// The store after it moved on to the next bucket and cleared it.
    pub open spec fn advanced(self) -> RingBufferView {
        let next = self.next_index();
        let buckets = self.price_buckets.update(
            next,
            PriceBucket { price: 0, volume: 0, timestamp: 0 },
        );
        RingBufferView {
            current_bucket_index: next as u32,
            price_buckets: buckets,
            total_volume: volume_sum(buckets) as u64,
            ..self
        }
    }
}

impl TwapRingBuffer {
    /// Whether the store is well formed. Every store that `initialize_ring_buffer`
    /// made and that only this module's operations changed is.
    pub fn is_well_formed(&self) -> (ok: bool)
        ensures
            ok == self.wf(),
    {
        if self.bucket_count == 0 || self.price_buckets.len() != self.bucket_count as usize
            || self.current_bucket_index >= self.bucket_count {
            return false;
        }
        let ghost buckets = self.price_buckets@;
        let mut sum: u128 = 0;
        let mut i: usize = 0;
        proof {
            assert(buckets.skip(0) =~= buckets);
        }
        while i < self.price_buckets.len()
            invariant
                i <= buckets.len(),
                buckets == self.price_buckets@,
                buckets.len() <= u32::MAX,
                sum + volume_sum(buckets.skip(i as int)) == volume_sum(buckets),
                sum <= i * u64::MAX,
            decreases buckets.len() - i,
        {
            proof {
                assert(buckets.skip(i as int).drop_first() =~= buckets.skip(i + 1));
            }
            sum = sum + self.price_buckets[i].volume as u128;
            i = i + 1;
        }
        proof {
            assert(buckets.skip(i as int) =~= Seq::<PriceBucket>::empty());
        }
        sum == self.total_volume as u128
    }

    /// Index of the bucket that the next commit writes.
    pub fn get_current_bucket_index(&self) -> (index: u32)
        ensures
            index == self.current_bucket_index,
    {
        self.current_bucket_index
    }

    /// Moves on to the next bucket, going round at the end, and clears it.
    pub fn advance_bucket(&mut self)
        requires
            old(self).wf(),
        ensures
            final(self)@ == old(self)@.advanced(),
            final(self).wf(),
    {
        let next: u32 = if self.current_bucket_index == self.bucket_count - 1 {
            0
        } else {
            self.current_bucket_index + 1
        };
        let cleared: u64 = self.price_buckets[next as usize].volume;
        proof {
            lemma_next_index(self.current_bucket_index as int, self.bucket_count as int);
            lemma_volume_sum_update(
                self.price_buckets@,
                next as int,
                PriceBucket { price: 0, volume: 0, timestamp: 0 },
            );
        }
        self.current_bucket_index = next;
        self.price_buckets.set(next as usize, PriceBucket::empty());
        self.total_volume = self.total_volume - cleared;
    }

    /// Writes a sample into the current bucket and brings `total_volume` up to
    /// date. Fails, and changes nothing, where the new sum of the volumes does
    /// not fit in 64 bits.
    pub fn update_current_bucket(&mut self, price: u128, volume: u64, timestamp: u64) -> (written:
        Result<(), ErrorCode>)
        requires
            old(self).wf(),
        ensures
            written == old(self)@.write_result(sample_bucket(price, volume, timestamp)),
            written is Err ==> final(self)@ == old(self)@,
            written is Ok ==> final(self)@ == old(self)@.written(
                sample_bucket(price, volume, timestamp),
            ),
            final(self).wf(),
    {
        let bucket_index: usize = self.current_bucket_index as usize;
        let replaced: u64 = self.price_buckets[bucket_index].volume;
        let bucket = PriceBucket { price, volume, timestamp };
        proof {
            lemma_volume_sum_update(
                self.price_buckets@,
                bucket_index as int,
                PriceBucket { price: 0, volume: 0, timestamp: 0 },
            );
            lemma_volume_sum_update(self.price_buckets@, bucket_index as int, bucket);
        }
        match (self.total_volume - replaced).checked_add(volume) {
            None => Err(ErrorCode::ArithmeticOverflow),
            Some(total) => {
                self.price_buckets.set(bucket_index, bucket);
                self.total_volume = total;
                Ok(())
            },
        }
    }
}

} // verus!
