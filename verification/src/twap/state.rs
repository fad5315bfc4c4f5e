//! The data of the price engine: the sampling policy, one bucket, and the ring
//! buffer of buckets.

use vstd::prelude::*;
use crate::pubkey::Pubkey;

verus! {

/// Ticks in one hour, the span over which committed updates are counted.
pub const SLOTS_PER_HOUR: u64 = 3600;

/// Basis points in one whole.
pub const BPS_DENOMINATOR: u128 = 10000;

/// The sampling policy: the thresholds that a sample must pass to be committed,
/// and the counters that the commits advance.
#[derive(Clone, Copy, Debug, PartialEq, Eq)]
pub struct TwapConfig {
    /// Who may change the policy.
    pub authority: Pubkey,
    /// Least number of ticks between two commits.
    pub min_update_interval: u64,
    /// Most commits within one hour.
    pub max_updates_per_hour: u32,
    /// Least volume, accumulated since the last commit, that a commit needs.
    pub min_volume_threshold: u64,
    /// Least price change since the last commit, in basis points, that a commit needs.
    pub min_price_change_bps: u16,
    /// Price change, in basis points, from which an update counts as an emergency.
    pub emergency_update_threshold: u16,
    /// Most emergency updates within one hour.
    pub max_emergency_updates_per_hour: u32,
    /// Hours of history that the buckets are meant to span.
    pub twap_horizon_hours: u32,
    /// Number of buckets in a ring buffer made for this policy.
    pub bucket_count: u32,
    /// Tick from which a commit moves the ring buffer on to its next bucket.
    pub bucket_duration_slots: u64,
    /// Discount of the buyback price below the average price, in basis points.
    pub buyback_discount_bps: u16,
    /// Largest amount that one reclaim may ask for.
    pub max_buyback_amount: u64,
    /// Tick of the last commit.
    pub last_update_slot: u64,
    /// Commits counted in the current hour.
    pub updates_this_hour: u32,
    /// Tick at which the current hour began.
    pub last_hour_slot: u64,
    /// Seed byte of the account that stores the policy.
    pub bump: u8,
}

/// One slot of the ring buffer: the price, volume and tick of one committed sample.
#[derive(Clone, Copy, Debug, PartialEq, Eq)]
pub struct PriceBucket {
    pub price: u128,
    pub volume: u64,
    pub timestamp: u64,
}

/// The store: a fixed number of buckets written in a circle, and the volume seen
/// since the last commit.
#[derive(Clone, Debug, PartialEq, Eq)]
pub struct TwapRingBuffer {
    /// Address of the policy that this store belongs to.
    pub config: Pubkey,
    /// Asset that is priced.
    pub base_mint: Pubkey,
    /// Asset in which the price is expressed.
    pub quote_mint: Pubkey,
    /// Index of the bucket that the next commit writes.
    pub current_bucket_index: u32,
    /// Number of buckets.
    pub bucket_count: u32,
    /// Volume of the samples seen since the last commit.
    pub volume_accumulator: u64,
    /// Price of the last committed sample, 0 before the first commit.
    pub last_update_price: u128,
    /// The buckets.
    pub price_buckets: Vec<PriceBucket>,
    /// Sum of the volumes of all buckets.
    pub total_volume: u64,
    /// Seed byte of the account that stores the buffer.
    pub bump: u8,
}

/// What a ring buffer holds, with its buckets as a sequence.
pub struct RingBufferView {
    pub config: Pubkey,
    pub base_mint: Pubkey,
    pub quote_mint: Pubkey,
    pub current_bucket_index: u32,
    pub bucket_count: u32,
    pub volume_accumulator: u64,
    pub last_update_price: u128,
    pub price_buckets: Seq<PriceBucket>,
    pub total_volume: u64,
    pub bump: u8,
}

impl View for TwapRingBuffer {
    type V = RingBufferView;

    open spec fn view(&self) -> RingBufferView {
        RingBufferView {
            config: self.config,
            base_mint: self.base_mint,
            quote_mint: self.quote_mint,
            current_bucket_index: self.current_bucket_index,
            bucket_count: self.bucket_count,
            volume_accumulator: self.volume_accumulator,
            last_update_price: self.last_update_price,
            price_buckets: self.price_buckets@,
            total_volume: self.total_volume,
            bump: self.bump,
        }
    }
}

impl PriceBucket {
    /// Whether the bucket carries both a price and a volume. Only such buckets
    /// enter an average.
    pub open spec fn is_populated(&self) -> bool {
        self.price > 0 && self.volume > 0
    }

    /// Whether the bucket carries neither a price nor a volume.
    pub open spec fn is_empty(&self) -> bool {
        self.price == 0 && self.volume == 0
    }

    /// A bucket in which nothing was committed.
    pub fn empty() -> (bucket: PriceBucket)
        ensures
            bucket == (PriceBucket { price: 0, volume: 0, timestamp: 0 }),
    {
        PriceBucket { price: 0, volume: 0, timestamp: 0 }
    }
}

/// Sum of the volumes of all buckets of `buckets`.
pub open spec fn volume_sum(buckets: Seq<PriceBucket>) -> nat
    decreases buckets.len(),
{
    if buckets.len() == 0 {
        0
    } else {
        buckets.first().volume as nat + volume_sum(buckets.drop_first())
    }
}

impl RingBufferView {
    /// The store is well formed: it has `bucket_count` buckets and at least one,
    /// the current index names one of them, and `total_volume` is the sum of
    /// their volumes.
    pub open spec fn wf(&self) -> bool {
        &&& self.bucket_count > 0
        &&& self.price_buckets.len() == self.bucket_count
        &&& self.current_bucket_index < self.bucket_count
        &&& self.total_volume == volume_sum(self.price_buckets)
    }
}

impl TwapRingBuffer {
    /// The store is well formed, see [`RingBufferView::wf`].
    pub open spec fn wf(&self) -> bool {
        self@.wf()
    }
}

} // verus!
