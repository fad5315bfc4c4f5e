//! The operations that the engine offers: creating a policy and a store,
//! submitting what a transfer brings, and reading averages, buyback price and
//! reclaim terms.

use vstd::prelude::*;
use crate::pubkey::Pubkey;
use crate::twap::aggregate::{recent_populated, weighted_mean};
use crate::twap::engine::{
    config_after_sample,
    process_swap_data,
    sample_result,
    store_after_sample,
};
use crate::twap::error::ErrorCode;
use crate::twap::policy::buyback_price;
use crate::twap::state::{volume_sum, PriceBucket, RingBufferView, TwapConfig, TwapRingBuffer};
use crate::twap::stats::price_stats;
use crate::twap::swap_source::{
    detect_and_parse_raydium_swap,
    hook_sample,
    parse_transfer_hook_data,
    HookAccount,
};

verus! {

/// Number of recent buckets over which an update reports the volume-weighted
/// average price.
pub const VWAP_WINDOW: u32 = 4;

/// The thresholds of a policy, as its creator chooses them.
#[derive(Clone, Copy, Debug, PartialEq, Eq)]
pub struct ConfigParams {
    pub min_update_interval: u64,
    pub max_updates_per_hour: u32,
    pub min_volume_threshold: u64,
    pub min_price_change_bps: u16,
    pub emergency_update_threshold: u16,
    pub max_emergency_updates_per_hour: u32,
    pub twap_horizon_hours: u32,
    pub bucket_count: u32,
    pub bucket_duration_slots: u64,
    pub buyback_discount_bps: u16,
    pub max_buyback_amount: u64,
}

impl Default for ConfigParams {
    /// Ten minutes between commits and six of them an hour at most, a volume
    /// of 500_000_000 and a price change of 1% to commit, 10% for an emergency
    /// and two of those an hour, 24 buckets of one hour each, a buyback at 5%
    /// below the average and of 1_000_000_000 at most.
    fn default() -> (params: ConfigParams)
        ensures
            params == (ConfigParams {
                min_update_interval: 600,
                max_updates_per_hour: 6,
                min_volume_threshold: 500_000_000,
                min_price_change_bps: 100,
                emergency_update_threshold: 1000,
                max_emergency_updates_per_hour: 2,
                twap_horizon_hours: 24,
                bucket_count: 24,
                bucket_duration_slots: 3600,
                buyback_discount_bps: 500,
                max_buyback_amount: 1_000_000_000,
            }),
    {
        ConfigParams {
            min_update_interval: 600,
            max_updates_per_hour: 6,
            min_volume_threshold: 500_000_000,
            min_price_change_bps: 100,
            emergency_update_threshold: 1000,
            max_emergency_updates_per_hour: 2,
            twap_horizon_hours: 24,
            bucket_count: 24,
            bucket_duration_slots: 3600,
            buyback_discount_bps: 500,
            max_buyback_amount: 1_000_000_000,
        }
    }
}

/// A sample as it is stored for trial runs.
#[derive(Clone, Copy, Debug, PartialEq, Eq)]
pub struct TransferData {
    pub price: u128,
    pub volume: u64,
    pub timestamp: u64,
    pub bump: u8,
}

/// The terms of one reclaim.
#[derive(Clone, Copy, Debug, PartialEq, Eq)]
pub struct ReclaimData {
    pub base_mint: Pubkey,
    pub quote_mint: Pubkey,
    pub twap_price: u128,
    pub buyback_price: u128,
    pub reclaim_amount: u64,
    pub timestamp: u64,
    pub bump: u8,
}

/// What an update of the averages reports.
#[derive(Clone, Copy, Debug, PartialEq, Eq)]
pub struct TwapUpdate {
    pub twap_price: u128,
    pub buyback_price: u128,
    pub vwap_4h: Option<u128>,
    pub min_price: Option<u128>,
    pub max_price: Option<u128>,
    pub median_price: Option<u128>,
}

/// What reading the average reports.
#[derive(Clone, Copy, Debug, PartialEq, Eq)]
pub struct TwapReading {
    pub twap_price: u128,
    pub buyback_price: u128,
    pub total_volume: u64,
    pub current_bucket: u32,
}

/// A bucket together with its index.
#[derive(Clone, Copy, Debug, PartialEq, Eq)]
pub struct BucketEntry {
    pub index: usize,
    pub price: u128,
    pub volume: u64,
}

/// The policy that `initialize_config` creates.
pub open spec fn initial_config(authority: Pubkey, bump: u8, params: ConfigParams) -> TwapConfig {
    TwapConfig {
        authority,
        min_update_interval: params.min_update_interval,
        max_updates_per_hour: params.max_updates_per_hour,
        min_volume_threshold: params.min_volume_threshold,
        min_price_change_bps: params.min_price_change_bps,
        emergency_update_threshold: params.emergency_update_threshold,
        max_emergency_updates_per_hour: params.max_emergency_updates_per_hour,
        twap_horizon_hours: params.twap_horizon_hours,
        bucket_count: params.bucket_count,
        bucket_duration_slots: params.bucket_duration_slots,
        buyback_discount_bps: params.buyback_discount_bps,
        max_buyback_amount: params.max_buyback_amount,
        last_update_slot: 0,
        updates_this_hour: 0,
        last_hour_slot: 0,
        bump,
    }
}

/// The store that `initialize_ring_buffer` creates: `bucket_count` empty
/// buckets, the first of them current, nothing accumulated and no last price.
pub open spec fn initial_ring_buffer(
    config: Pubkey,
    bucket_count: u32,
    base_mint: Pubkey,
    quote_mint: Pubkey,
    bump: u8,
) -> RingBufferView {
    RingBufferView {
        config,
        base_mint,
        quote_mint,
        current_bucket_index: 0,
        bucket_count,
        volume_accumulator: 0,
        last_update_price: 0,
        price_buckets: Seq::new(
            bucket_count as nat,
            |i: int| PriceBucket { price: 0, volume: 0, timestamp: 0 },
        ),
        total_volume: 0,
        bump,
    }
}

/// What a transfer with these accounts returns.
pub open spec fn hook_result(
    config: TwapConfig,
    store: RingBufferView,
    accounts: Seq<HookAccount>,
    now: u64,
) -> Result<bool, ErrorCode> {
    match hook_sample(accounts) {
        Ok((price, volume)) => sample_result(config, store, price, volume, now),
        Err(e) => Err(e),
    }
}

/// The store after a transfer with these accounts.
pub open spec fn store_after_hook(
    config: TwapConfig,
    store: RingBufferView,
    accounts: Seq<HookAccount>,
    now: u64,
) -> RingBufferView {
    match hook_sample(accounts) {
        Ok((price, volume)) => store_after_sample(config, store, price, volume, now),
        Err(_) => store,
    }
}

/// The policy after a transfer with these accounts.
pub open spec fn config_after_hook(
    config: TwapConfig,
    store: RingBufferView,
    accounts: Seq<HookAccount>,
    now: u64,
) -> TwapConfig {
    match hook_sample(accounts) {
        Ok((price, volume)) => config_after_sample(config, store, price, volume, now),
        Err(_) => config,
    }
}

/// The buyback price of a store under a policy: the discounted time-weighted
/// average, or no value where there is no average.
pub open spec fn buyback_quote(config: TwapConfig, store: RingBufferView) -> Result<
    Option<u128>,
    ErrorCode,
> {
    match weighted_mean(store.price_buckets) {
        Err(e) => Err(e),
        Ok(None) => Ok(None),
        Ok(Some(twap)) => match buyback_price(twap as int, config.buyback_discount_bps as int) {
            Err(e) => Err(e),
            Ok(price) => Ok(Some(price)),
        },
    }
}

/// What an update reports: nothing where there is no average, else the
/// average, its buyback price, the volume-weighted average of the four most
/// recent populated buckets and the price statistics.
pub open spec fn twap_update(config: TwapConfig, store: RingBufferView) -> Result<
    Option<TwapUpdate>,
    ErrorCode,
> {
    let vwap = weighted_mean(
        recent_populated(store.price_buckets, store.current_bucket_index as int, 4),
    );
    let stats = price_stats(store.price_buckets);
    match weighted_mean(store.price_buckets) {
        Err(e) => Err(e),
        Ok(None) => Ok(None),
        Ok(Some(twap)) => match buyback_price(twap as int, config.buyback_discount_bps as int) {
            Err(e) => Err(e),
            Ok(buyback) => match vwap {
                Err(e) => Err(e),
                Ok(vwap_4h) => Ok(
                    Some(
                        TwapUpdate {
                            twap_price: twap,
                            buyback_price: buyback,
                            vwap_4h,
                            min_price: stats.0,
                            max_price: stats.1,
                            median_price: stats.2,
                        },
                    ),
                ),
            },
        },
    }
}

/// What reading reports: nothing where there is no average, else the average,
/// its buyback price, the total volume and the current index.
pub open spec fn twap_reading(config: TwapConfig, store: RingBufferView) -> Result<
    Option<TwapReading>,
    ErrorCode,
> {
    match weighted_mean(store.price_buckets) {
        Err(e) => Err(e),
        Ok(None) => Ok(None),
        Ok(Some(twap)) => match buyback_price(twap as int, config.buyback_discount_bps as int) {
            Err(e) => Err(e),
            Ok(buyback) => Ok(
                Some(
                    TwapReading {
                        twap_price: twap,
                        buyback_price: buyback,
                        total_volume: store.total_volume,
                        current_bucket: store.current_bucket_index,
                    },
                ),
            ),
        },
    }
}

/// The buckets with a volume from index `from` on, each with its index, at
/// most `limit` of them.
pub open spec fn buckets_with_volume(buckets: Seq<PriceBucket>, from: int, limit: nat) -> Seq<
    BucketEntry,
>
    decreases buckets.len() - from,
{
    if from < 0 || from >= buckets.len() || limit == 0 {
        Seq::empty()
    } else if buckets[from].volume > 0 {
        seq![
            BucketEntry {
                index: from as usize,
                price: buckets[from].price,
                volume: buckets[from].volume,
            },
        ] + buckets_with_volume(buckets, from + 1, (limit - 1) as nat)
    } else {
        buckets_with_volume(buckets, from + 1, limit)
    }
}

/// The terms of a reclaim of `amount` at tick `now`: none without an average,
/// and none for an amount above the policy's maximum.
pub open spec fn reclaim_terms(
    config: TwapConfig,
    store: RingBufferView,
    amount: u64,
    now: u64,
    bump: u8,
) -> Result<ReclaimData, ErrorCode> {
    match weighted_mean(store.price_buckets) {
        Err(e) => Err(e),
        Ok(None) => Err(ErrorCode::NoTwapAvailable),
        Ok(Some(twap)) => match buyback_price(twap as int, config.buyback_discount_bps as int) {
            Err(e) => Err(e),
            Ok(buyback) => if amount > config.max_buyback_amount {
                Err(ErrorCode::ExceedsMaxBuybackAmount)
            } else {
                Ok(
                    ReclaimData {
                        base_mint: store.base_mint,
                        quote_mint: store.quote_mint,
                        twap_price: twap,
                        buyback_price: buyback,
                        reclaim_amount: amount,
                        timestamp: now,
                        bump,
                    },
                )
            },
        },
    }
}

/// All buckets of a sequence of empty buckets add up to no volume.
pub proof fn lemma_volume_sum_of_empty(buckets: Seq<PriceBucket>)
    requires
        forall|i: int| 0 <= i < buckets.len() ==> buckets[i].volume == 0,
    ensures
        volume_sum(buckets) == 0,
    decreases buckets.len(),
{
    if buckets.len() > 0 {
        lemma_volume_sum_of_empty(buckets.drop_first());
    }
}

/// Creates a policy with the given thresholds and with its counters at 0.
pub fn initialize_config(authority: Pubkey, bump: u8, params: ConfigParams) -> (config: TwapConfig)
    ensures
        config == initial_config(authority, bump, params),
{
    TwapConfig {
        authority,
        min_update_interval: params.min_update_interval,
        max_updates_per_hour: params.max_updates_per_hour,
        min_volume_threshold: params.min_volume_threshold,
        min_price_change_bps: params.min_price_change_bps,
        emergency_update_threshold: params.emergency_update_threshold,
        max_emergency_updates_per_hour: params.max_emergency_updates_per_hour,
        twap_horizon_hours: params.twap_horizon_hours,
        bucket_count: params.bucket_count,
        bucket_duration_slots: params.bucket_duration_slots,
        buyback_discount_bps: params.buyback_discount_bps,
        max_buyback_amount: params.max_buyback_amount,
        last_update_slot: 0,
        updates_this_hour: 0,
        last_hour_slot: 0,
        bump,
    }
}

/// Creates the empty store of a policy, with as many buckets as the policy
/// names.
pub fn initialize_ring_buffer(
    config_key: Pubkey,
    config: &TwapConfig,
    base_mint: Pubkey,
    quote_mint: Pubkey,
    bump: u8,
) -> (ring_buffer: TwapRingBuffer)
    requires
        config.bucket_count > 0,
    ensures
        ring_buffer@ == initial_ring_buffer(
            config_key,
            config.bucket_count,
            base_mint,
            quote_mint,
            bump,
        ),
        ring_buffer.wf(),
{
    let mut price_buckets: Vec<PriceBucket> = Vec::new();
    let mut filled: u32 = 0;
    while filled < config.bucket_count
        invariant
            filled <= config.bucket_count,
            price_buckets@.len() == filled,
            forall|i: int|
                0 <= i < filled ==> price_buckets@[i] == (PriceBucket {
                    price: 0,
                    volume: 0,
                    timestamp: 0,
                }),
        decreases config.bucket_count - filled,
    {
        price_buckets.push(PriceBucket::empty());
        filled = filled + 1;
    }
    proof {
        lemma_volume_sum_of_empty(price_buckets@);
        assert(price_buckets@ =~= Seq::new(
            config.bucket_count as nat,
            |i: int| PriceBucket { price: 0, volume: 0, timestamp: 0 },
        ));
    }
    TwapRingBuffer {
        config: config_key,
        base_mint,
        quote_mint,
        current_bucket_index: 0,
        bucket_count: config.bucket_count,
        volume_accumulator: 0,
        last_update_price: 0,
        price_buckets,
        total_volume: 0,
        bump,
    }
}

/// Submits what a transfer brings: the sample of the swap among its accounts,
/// or else the sample of a plain transfer.
pub fn process_transfer_hook(
    ring_buffer: &mut TwapRingBuffer,
    config: &mut TwapConfig,
    slot: u64,
    remaining_accounts: &[HookAccount],
) -> (committed: Result<bool, ErrorCode>)
    requires
        old(ring_buffer).wf(),
    ensures
        committed == hook_result(*old(config), old(ring_buffer)@, remaining_accounts@, slot),
        *final(config) == config_after_hook(
            *old(config),
            old(ring_buffer)@,
            remaining_accounts@,
            slot,
        ),
        final(ring_buffer)@ == store_after_hook(
            *old(config),
            old(ring_buffer)@,
            remaining_accounts@,
            slot,
        ),
        final(ring_buffer).wf(),
{
    match detect_and_parse_raydium_swap(remaining_accounts, config) {
        Err(error) => Err(error),
        Ok(Some((raydium_price, raydium_volume))) => process_swap_data(
            ring_buffer,
            config,
            slot,
            raydium_price,
            raydium_volume,
        ),
        Ok(None) => match parse_transfer_hook_data(remaining_accounts) {
            Err(error) => Err(error),
            Ok((current_price, current_volume)) => process_swap_data(
                ring_buffer,
                config,
                slot,
                current_price,
                current_volume,
            ),
        },
    }
}

/// Submits a sample that the caller names.
pub fn test_real_transfer_hook(
    ring_buffer: &mut TwapRingBuffer,
    config: &mut TwapConfig,
    slot: u64,
    price: u128,
    volume: u64,
) -> (committed: Result<bool, ErrorCode>)
    requires
        old(ring_buffer).wf(),
    ensures
        committed == sample_result(*old(config), old(ring_buffer)@, price, volume, slot),
        *final(config) == config_after_sample(
            *old(config),
            old(ring_buffer)@,
            price,
            volume,
            slot,
        ),
        final(ring_buffer)@ == store_after_sample(
            *old(config),
            old(ring_buffer)@,
            price,
            volume,
            slot,
        ),
        final(ring_buffer).wf(),
{
    process_swap_data(ring_buffer, config, slot, price, volume)
}

/// The price at which the store's fractions are bought back.
pub fn query_buyback_price(ring_buffer: &TwapRingBuffer, config: &TwapConfig) -> (price: Result<
    Option<u128>,
    ErrorCode,
>)
    ensures
        price == buyback_quote(*config, ring_buffer@),
{
    match ring_buffer.calculate_twap() {
        Err(error) => Err(error),
        Ok(None) => Ok(None),
        Ok(Some(twap_price)) => match config.calculate_buyback_price(twap_price) {
            Err(error) => Err(error),
            Ok(price) => Ok(Some(price)),
        },
    }
}

/// Computes what an update of the averages reports.
pub fn update_twap(ring_buffer: &TwapRingBuffer, config: &TwapConfig) -> (update: Result<
    Option<TwapUpdate>,
    ErrorCode,
>)
    ensures
        update == twap_update(*config, ring_buffer@),
{
    let twap_price: u128 = match ring_buffer.calculate_twap() {
        Err(error) => {
            return Err(error);
        },
        Ok(None) => {
            return Ok(None);
        },
        Ok(Some(twap_price)) => twap_price,
    };
    let buyback_price: u128 = match config.calculate_buyback_price(twap_price) {
        Err(error) => {
            return Err(error);
        },
        Ok(price) => price,
    };
    let vwap_4h: Option<u128> = match ring_buffer.calculate_vwap(VWAP_WINDOW) {
        Err(error) => {
            return Err(error);
        },
        Ok(vwap) => vwap,
    };
    let (min_price, max_price, median_price) = ring_buffer.get_price_stats();
    Ok(Some(TwapUpdate { twap_price, buyback_price, vwap_4h, min_price, max_price, median_price }))
}

/// Computes what reading the average reports.
pub fn get_twap(ring_buffer: &TwapRingBuffer, config: &TwapConfig) -> (reading: Result<
    Option<TwapReading>,
    ErrorCode,
>)
    ensures
        reading == twap_reading(*config, ring_buffer@),
{
    let twap_price: u128 = match ring_buffer.calculate_twap() {
        Err(error) => {
            return Err(error);
        },
        Ok(None) => {
            return Ok(None);
        },
        Ok(Some(twap_price)) => twap_price,
    };
    match config.calculate_buyback_price(twap_price) {
        Err(error) => Err(error),
        Ok(buyback_price) => Ok(
            Some(
                TwapReading {
                    twap_price,
                    buyback_price,
                    total_volume: ring_buffer.total_volume,
                    current_bucket: ring_buffer.current_bucket_index,
                },
            ),
        ),
    }
}

/// Lists the first buckets that carry a volume, at most `limit` of them.
pub fn list_buckets_with_volume(ring_buffer: &TwapRingBuffer, limit: usize) -> (entries: Vec<
    BucketEntry,
>)
    ensures
        entries@ == buckets_with_volume(ring_buffer.price_buckets@, 0, limit as nat),
{
    let ghost buckets = ring_buffer.price_buckets@;
    let mut entries: Vec<BucketEntry> = Vec::new();
    let mut index: usize = 0;
    while index < ring_buffer.price_buckets.len() && entries.len() < limit
        invariant
            index <= buckets.len(),
            buckets == ring_buffer.price_buckets@,
            entries@.len() <= limit,
            entries@ + buckets_with_volume(
                buckets,
                index as int,
                (limit - entries@.len()) as nat,
            ) == buckets_with_volume(buckets, 0, limit as nat),
        decreases buckets.len() - index,
    {
        let bucket = &ring_buffer.price_buckets[index];
        let ghost found = entries@;
        if bucket.volume > 0 {
            let entry = BucketEntry { index, price: bucket.price, volume: bucket.volume };
            entries.push(entry);
            proof {
                let rest = buckets_with_volume(
                    buckets,
                    index + 1,
                    (limit - found.len() - 1) as nat,
                );
                assert(found.push(entry) + rest =~= found + (seq![entry] + rest));
            }
        }
        index = index + 1;
    }
    proof {
        let rest = buckets_with_volume(buckets, index as int, (limit - entries@.len()) as nat);
        assert(rest =~= Seq::<BucketEntry>::empty());
        assert(entries@ + rest =~= entries@);
    }
    entries
}

/// Stores a sample for a trial run.
pub fn create_transfer_data(price: u128, volume: u64, slot: u64, bump: u8) -> (data: TransferData)
    ensures
        data == (TransferData { price, volume, timestamp: slot, bump }),
{
    TransferData { price, volume, timestamp: slot, bump }
}

/// Settles the terms of a reclaim of `amount` at tick `slot`.
pub fn reclaim_fractions(
    ring_buffer: &TwapRingBuffer,
    config: &TwapConfig,
    amount: u64,
    slot: u64,
    bump: u8,
) -> (terms: Result<ReclaimData, ErrorCode>)
    ensures
        terms == reclaim_terms(*config, ring_buffer@, amount, slot, bump),
{
    let twap_price: u128 = match ring_buffer.calculate_twap() {
        Err(error) => {
            return Err(error);
        },
        Ok(None) => {
            return Err(ErrorCode::NoTwapAvailable);
        },
        Ok(Some(twap_price)) => twap_price,
    };
    let buyback_price: u128 = match config.calculate_buyback_price(twap_price) {
        Err(error) => {
            return Err(error);
        },
        Ok(price) => price,
    };
    if amount > config.max_buyback_amount {
        return Err(ErrorCode::ExceedsMaxBuybackAmount);
    }
    Ok(
        ReclaimData {
            base_mint: ring_buffer.base_mint,
            quote_mint: ring_buffer.quote_mint,
            twap_price,
            buyback_price,
            reclaim_amount: amount,
            timestamp: slot,
            bump,
        },
    )
}

} // verus!
