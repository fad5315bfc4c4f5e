use twap_hook::pubkey::Pubkey;
use twap_hook::twap::error::ErrorCode;
use twap_hook::twap::instructions::{
    create_transfer_data,
    get_twap,
    initialize_config,
    initialize_ring_buffer,
    list_buckets_with_volume,
    process_transfer_hook,
    query_buyback_price,
    reclaim_fractions,
    update_twap,
    BucketEntry,
    ConfigParams,
    ReclaimData,
    TransferData,
    TwapReading,
    TwapUpdate,
};
use twap_hook::twap::state::{PriceBucket, TwapConfig, TwapRingBuffer};
use twap_hook::twap::swap_source::HookAccount;

fn key(byte: u8) -> Pubkey {
    Pubkey::new_from_array([byte; 32])
}

fn setup(bucket_count: u32) -> (TwapConfig, TwapRingBuffer) {
    let mut params = ConfigParams::default();
    params.bucket_count = bucket_count;
    let config = initialize_config(key(1), 9, params);
    let ring_buffer = initialize_ring_buffer(key(2), &config, key(3), key(4), 8);
    (config, ring_buffer)
}

fn filled(buckets: &[(u128, u64)], current_bucket_index: u32) -> (TwapConfig, TwapRingBuffer) {
    let (config, mut ring_buffer) = setup(buckets.len() as u32);
    for (i, (price, volume)) in buckets.iter().enumerate() {
        ring_buffer.price_buckets[i] =
            PriceBucket { price: *price, volume: *volume, timestamp: i as u64 };
    }
    ring_buffer.total_volume = buckets.iter().map(|(_, v)| *v).sum();
    ring_buffer.current_bucket_index = current_bucket_index;
    (config, ring_buffer)
}

fn fields(price: u64, volume: u64) -> Vec<u8> {
    let mut data = Vec::new();
    data.extend_from_slice(&price.to_le_bytes());
    data.extend_from_slice(&volume.to_le_bytes());
    data
}

#[test]
fn a_transfer_with_a_swap_submits_the_swap() {
    let (mut config, mut ring_buffer) = setup(4);
    config.min_price_change_bps = 0;
    let accounts = [
        HookAccount { data: fields(1_000_000, 2_000_000_000) },
        HookAccount { data: vec![] },
    ];
    let committed = process_transfer_hook(&mut ring_buffer, &mut config, 700, &accounts);
    assert_eq!(committed, Ok(true));
    assert_eq!(
        ring_buffer.price_buckets[0],
        PriceBucket { price: 1_001_000, volume: 1_995_000_000, timestamp: 700 }
    );
    assert_eq!(ring_buffer.last_update_price, 1_001_000);
    assert_eq!(ring_buffer.total_volume, 1_995_000_000);
    assert_eq!(config.last_update_slot, 700);
    assert_eq!(config.updates_this_hour, 1);
}

#[test]
fn a_transfer_without_a_swap_submits_the_plain_sample() {
    let (mut config, mut ring_buffer) = setup(4);
    config.min_price_change_bps = 0;
    config.min_volume_threshold = 0;
    // One account only: no swap. Price 5000 + 567, volume doubled.
    let accounts = [HookAccount { data: fields(5000, 1_234_567) }];
    let committed = process_transfer_hook(&mut ring_buffer, &mut config, 700, &accounts);
    assert_eq!(committed, Ok(true));
    assert_eq!(
        ring_buffer.price_buckets[0],
        PriceBucket { price: 5567, volume: 2_469_134, timestamp: 700 }
    );
    // No accounts at all: the fixed values, refused by the time predicate.
    let committed = process_transfer_hook(&mut ring_buffer, &mut config, 701, &[]);
    assert_eq!(committed, Ok(false));
    assert_eq!(ring_buffer.volume_accumulator, 1_000_000);
    // After the interval the fixed values are committed.
    let committed = process_transfer_hook(&mut ring_buffer, &mut config, 1300, &[]);
    assert_eq!(committed, Ok(true));
    assert_eq!(
        ring_buffer.price_buckets[0],
        PriceBucket { price: 50_000_000, volume: 1_000_000, timestamp: 1300 }
    );
}

#[test]
fn a_transfer_whose_sample_cannot_be_read_changes_nothing() {
    let (mut config, mut ring_buffer) = setup(4);
    let config_before = config;
    let store_before = ring_buffer.clone();
    let accounts = [HookAccount { data: fields(1, u64::MAX) }, HookAccount { data: vec![] }];
    assert_eq!(
        process_transfer_hook(&mut ring_buffer, &mut config, 700, &accounts),
        Err(ErrorCode::ArithmeticOverflow)
    );
    assert_eq!(config, config_before);
    assert_eq!(ring_buffer, store_before);
    assert_eq!(
        process_transfer_hook(&mut ring_buffer, &mut config, 700, &accounts[..1]),
        Err(ErrorCode::ArithmeticOverflow)
    );
    assert_eq!(config, config_before);
    assert_eq!(ring_buffer, store_before);
}

#[test]
fn buyback_price_is_the_discounted_average() {
    let (config, ring_buffer) = filled(&[(1000, 10), (1000, 30)], 0);
    assert_eq!(query_buyback_price(&ring_buffer, &config), Ok(Some(950)));
    let (config, ring_buffer) = filled(&[(100, 10), (200, 30)], 0);
    // 175 * 9500 / 10000 = 166.25
    assert_eq!(query_buyback_price(&ring_buffer, &config), Ok(Some(166)));
}

#[test]
fn buyback_price_without_an_average_is_no_value() {
    let (config, ring_buffer) = setup(4);
    assert_eq!(ring_buffer.calculate_twap(), Ok(None));
    assert_eq!(query_buyback_price(&ring_buffer, &config), Ok(None));
}

#[test]
fn buyback_price_hands_on_an_overflow() {
    let (config, ring_buffer) = filled(&[(u128::MAX, 2)], 0);
    assert_eq!(
        query_buyback_price(&ring_buffer, &config),
        Err(ErrorCode::ArithmeticOverflow)
    );
    let (mut config, ring_buffer) = filled(&[(u128::MAX, 1)], 0);
    assert_eq!(
        query_buyback_price(&ring_buffer, &config),
        Err(ErrorCode::ArithmeticOverflow)
    );
    config.buyback_discount_bps = 9999;
    assert_eq!(
        query_buyback_price(&ring_buffer, &config),
        Ok(Some(u128::MAX / 10000))
    );
}

#[test]
fn an_update_reports_averages_and_statistics() {
    let (config, ring_buffer) =
        filled(&[(100, 10), (0, 0), (300, 30), (400, 40), (500, 50), (600, 60)], 5);
    // Average: (1000 + 9000 + 16000 + 25000 + 36000) / 190 = 457.9
    // Buyback: 457 * 9500 / 10000 = 434.15
    // Last four populated buckets from index 5 down: 600, 500, 400, 300:
    // (36000 + 25000 + 16000 + 9000) / 180 = 477.8
    assert_eq!(
        update_twap(&ring_buffer, &config),
        Ok(Some(TwapUpdate {
            twap_price: 457,
            buyback_price: 434,
            vwap_4h: Some(477),
            min_price: Some(100),
            max_price: Some(600),
            median_price: Some(400),
        }))
    );
}

#[test]
fn an_update_without_an_average_reports_nothing() {
    let (config, ring_buffer) = setup(4);
    assert_eq!(update_twap(&ring_buffer, &config), Ok(None));
}

#[test]
fn an_update_reports_a_window_without_buckets() {
    // The current bucket is the first and it is empty: nothing is within reach
    // of the window.
    let (config, ring_buffer) = filled(&[(0, 0), (200, 20)], 0);
    assert_eq!(
        update_twap(&ring_buffer, &config),
        Ok(Some(TwapUpdate {
            twap_price: 200,
            buyback_price: 190,
            vwap_4h: None,
            min_price: Some(200),
            max_price: Some(200),
            median_price: Some(200),
        }))
    );
}

#[test]
fn an_update_hands_on_an_overflow() {
    let (config, ring_buffer) = filled(&[(u128::MAX, 2)], 0);
    assert_eq!(update_twap(&ring_buffer, &config), Err(ErrorCode::ArithmeticOverflow));
    let (config, ring_buffer) = filled(&[(u128::MAX, 1)], 0);
    assert_eq!(update_twap(&ring_buffer, &config), Err(ErrorCode::ArithmeticOverflow));
}

#[test]
fn reading_reports_average_total_and_index() {
    let (config, ring_buffer) = filled(&[(100, 10), (200, 30), (0, 0)], 2);
    assert_eq!(
        get_twap(&ring_buffer, &config),
        Ok(Some(TwapReading {
            twap_price: 175,
            buyback_price: 166,
            total_volume: 40,
            current_bucket: 2,
        }))
    );
    let (config, ring_buffer) = setup(3);
    assert_eq!(get_twap(&ring_buffer, &config), Ok(None));
    let (config, ring_buffer) = filled(&[(u128::MAX, 2)], 0);
    assert_eq!(get_twap(&ring_buffer, &config), Err(ErrorCode::ArithmeticOverflow));
}

#[test]
fn listing_gives_the_first_buckets_with_a_volume() {
    let (_, ring_buffer) = filled(
        &[(100, 10), (0, 0), (0, 30), (400, 0), (500, 50), (600, 60), (700, 70), (800, 80)],
        0,
    );
    assert_eq!(
        list_buckets_with_volume(&ring_buffer, 5),
        vec![
            BucketEntry { index: 0, price: 100, volume: 10 },
            BucketEntry { index: 2, price: 0, volume: 30 },
            BucketEntry { index: 4, price: 500, volume: 50 },
            BucketEntry { index: 5, price: 600, volume: 60 },
            BucketEntry { index: 6, price: 700, volume: 70 },
        ]
    );
    assert_eq!(
        list_buckets_with_volume(&ring_buffer, 1),
        vec![BucketEntry { index: 0, price: 100, volume: 10 }]
    );
    assert_eq!(list_buckets_with_volume(&ring_buffer, 0), vec![]);
    assert_eq!(list_buckets_with_volume(&ring_buffer, 100).len(), 6);
    let (_, empty) = setup(3);
    assert_eq!(list_buckets_with_volume(&empty, 5), vec![]);
}

#[test]
fn transfer_data_keeps_the_sample() {
    assert_eq!(
        create_transfer_data(123, 456, 789, 5),
        TransferData { price: 123, volume: 456, timestamp: 789, bump: 5 }
    );
}

#[test]
fn a_reclaim_is_settled_at_the_buyback_price() {
    let (config, ring_buffer) = filled(&[(1000, 10), (1000, 30)], 0);
    assert_eq!(
        reclaim_fractions(&ring_buffer, &config, 1_000_000_000, 4242, 77),
        Ok(ReclaimData {
            base_mint: key(3),
            quote_mint: key(4),
            twap_price: 1000,
            buyback_price: 950,
            reclaim_amount: 1_000_000_000,
            timestamp: 4242,
            bump: 77,
        })
    );
    assert_eq!(
        reclaim_fractions(&ring_buffer, &config, 0, 1, 2).map(|terms| terms.reclaim_amount),
        Ok(0)
    );
}

#[test]
fn a_reclaim_above_the_maximum_is_refused() {
    let (config, ring_buffer) = filled(&[(1000, 10)], 0);
    assert_eq!(config.max_buyback_amount, 1_000_000_000);
    assert_eq!(
        reclaim_fractions(&ring_buffer, &config, 1_000_000_001, 4242, 77),
        Err(ErrorCode::ExceedsMaxBuybackAmount)
    );
    assert_eq!(
        reclaim_fractions(&ring_buffer, &config, u64::MAX, 4242, 77),
        Err(ErrorCode::ExceedsMaxBuybackAmount)
    );
}

#[test]
fn a_reclaim_without_an_average_is_refused_first() {
    let (config, ring_buffer) = setup(4);
    assert_eq!(
        reclaim_fractions(&ring_buffer, &config, 1, 4242, 77),
        Err(ErrorCode::NoTwapAvailable)
    );
    assert_eq!(
        reclaim_fractions(&ring_buffer, &config, u64::MAX, 4242, 77),
        Err(ErrorCode::NoTwapAvailable)
    );
    let (config, ring_buffer) = filled(&[(u128::MAX, 2)], 0);
    assert_eq!(
        reclaim_fractions(&ring_buffer, &config, u64::MAX, 4242, 77),
        Err(ErrorCode::ArithmeticOverflow)
    );
}
