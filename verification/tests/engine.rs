use twap_hook::pubkey::Pubkey;
use twap_hook::twap::engine::{process_swap_data, should_update_ring_buffer};
use twap_hook::twap::error::ErrorCode;
use twap_hook::twap::instructions::{
    initialize_config,
    initialize_ring_buffer,
    test_real_transfer_hook,
    ConfigParams,
};
use twap_hook::twap::state::{PriceBucket, TwapConfig, TwapRingBuffer};

fn key(byte: u8) -> Pubkey {
    Pubkey::new_from_array([byte; 32])
}

fn setup(params: ConfigParams) -> (TwapConfig, TwapRingBuffer) {
    let config = initialize_config(key(1), 9, params);
    let ring_buffer = initialize_ring_buffer(key(2), &config, key(3), key(4), 8);
    (config, ring_buffer)
}

/// Thresholds that let every sample through.
fn open_params(bucket_count: u32) -> ConfigParams {
    ConfigParams {
        min_update_interval: 0,
        max_updates_per_hour: u32::MAX,
        min_volume_threshold: 0,
        min_price_change_bps: 0,
        emergency_update_threshold: 0,
        max_emergency_updates_per_hour: 0,
        twap_horizon_hours: 24,
        bucket_count,
        bucket_duration_slots: 0,
        buyback_discount_bps: 500,
        max_buyback_amount: 1_000_000_000,
    }
}

fn priced_volume(ring_buffer: &TwapRingBuffer) -> u64 {
    ring_buffer
        .price_buckets
        .iter()
        .filter(|b| b.price != 0)
        .map(|b| b.volume)
        .sum()
}

#[test]
fn time_gate_refuses_before_the_interval_and_accumulates() {
    let (mut config, mut ring_buffer) = setup(ConfigParams::default());
    assert_eq!(config.min_update_interval, 600);
    assert_eq!(config.last_update_slot, 0);
    let config_before = config;
    let buckets_before = ring_buffer.price_buckets.clone();
    let committed = test_real_transfer_hook(&mut ring_buffer, &mut config, 599, 100, 777_000_000);
    assert_eq!(committed, Ok(false));
    assert_eq!(ring_buffer.volume_accumulator, 777_000_000);
    assert_eq!(ring_buffer.price_buckets, buckets_before);
    assert_eq!(ring_buffer.total_volume, 0);
    assert_eq!(ring_buffer.last_update_price, 0);
    assert_eq!(ring_buffer.current_bucket_index, 0);
    assert_eq!(config, config_before);
    let committed = test_real_transfer_hook(&mut ring_buffer, &mut config, 599, 100, 5);
    assert_eq!(committed, Ok(false));
    assert_eq!(ring_buffer.volume_accumulator, 777_000_005);
}

#[test]
fn volume_gate_refuses_below_the_threshold() {
    let (mut config, mut ring_buffer) = setup(ConfigParams::default());
    assert_eq!(config.min_volume_threshold, 500_000_000);
    ring_buffer.volume_accumulator = 400_000_000;
    ring_buffer.last_update_price = 100;
    // Time, price and rate pass: tick 600, a change of 10000 basis points, no
    // commit yet in this hour.
    assert!(config.can_update_by_time(600));
    assert_eq!(config.can_update_by_price(200, 100), Ok(true));
    assert!(config.can_update_by_rate(600));
    let committed = test_real_transfer_hook(&mut ring_buffer, &mut config, 600, 200, 50_000_000);
    assert_eq!(committed, Ok(false));
    assert_eq!(ring_buffer.volume_accumulator, 450_000_000);
    assert_eq!(ring_buffer.total_volume, 0);
    // The next sample brings the accumulated volume up to the threshold.
    let committed = test_real_transfer_hook(&mut ring_buffer, &mut config, 600, 200, 50_000_000);
    assert_eq!(committed, Ok(true));
    assert_eq!(ring_buffer.volume_accumulator, 0);
}

#[test]
fn a_commit_writes_the_bucket_and_advances_the_counters() {
    let mut params = ConfigParams::default();
    params.min_price_change_bps = 0;
    let (mut config, mut ring_buffer) = setup(params);
    ring_buffer.volume_accumulator = 1;
    let committed =
        test_real_transfer_hook(&mut ring_buffer, &mut config, 600, 100, 500_000_000);
    assert_eq!(committed, Ok(true));
    assert_eq!(
        ring_buffer.price_buckets[0],
        PriceBucket { price: 100, volume: 500_000_000, timestamp: 600 }
    );
    assert_eq!(ring_buffer.volume_accumulator, 0);
    assert_eq!(ring_buffer.last_update_price, 100);
    assert_eq!(ring_buffer.total_volume, 500_000_000);
    // Tick 600 is before tick 3600, from which on the store moves on.
    assert_eq!(ring_buffer.current_bucket_index, 0);
    assert_eq!(ring_buffer.price_buckets.len(), 24);
    assert_eq!(config.last_update_slot, 600);
    assert_eq!(config.updates_this_hour, 1);
    assert_eq!(config.last_hour_slot, 0);
    let mut expected = initialize_config(key(1), 9, params);
    expected.last_update_slot = 600;
    expected.updates_this_hour = 1;
    assert_eq!(config, expected);
}

#[test]
fn a_commit_from_the_bucket_duration_on_moves_to_the_next_bucket() {
    let mut params = ConfigParams::default();
    params.min_price_change_bps = 0;
    params.bucket_count = 3;
    let (mut config, mut ring_buffer) = setup(params);
    ring_buffer.price_buckets[1] = PriceBucket { price: 9, volume: 9, timestamp: 9 };
    ring_buffer.total_volume = 9;
    let committed =
        test_real_transfer_hook(&mut ring_buffer, &mut config, 3600, 100, 500_000_000);
    assert_eq!(committed, Ok(true));
    assert_eq!(ring_buffer.current_bucket_index, 1);
    assert_eq!(
        ring_buffer.price_buckets[0],
        PriceBucket { price: 100, volume: 500_000_000, timestamp: 3600 }
    );
    // The bucket that the store moved on to was cleared, and its volume left
    // the total.
    assert_eq!(ring_buffer.price_buckets[1], PriceBucket::empty());
    assert_eq!(ring_buffer.total_volume, 500_000_000);
    // Tick 3600 is a new hour.
    assert_eq!(config.updates_this_hour, 1);
    assert_eq!(config.last_hour_slot, 3600);
    assert_eq!(config.last_update_slot, 3600);
}

#[test]
fn the_first_sample_fails_a_price_threshold_above_zero() {
    let (mut config, mut ring_buffer) = setup(ConfigParams::default());
    assert_eq!(config.min_price_change_bps, 100);
    let committed =
        test_real_transfer_hook(&mut ring_buffer, &mut config, 600, 100, 500_000_000);
    assert_eq!(committed, Ok(false));
    assert_eq!(ring_buffer.volume_accumulator, 500_000_000);
    assert_eq!(ring_buffer.last_update_price, 0);
}

#[test]
fn rate_limit_refuses_until_the_hour_rolls_over() {
    let mut params = ConfigParams::default();
    params.min_price_change_bps = 0;
    params.min_update_interval = 0;
    params.min_volume_threshold = 0;
    params.max_updates_per_hour = 2;
    let (mut config, mut ring_buffer) = setup(params);
    assert_eq!(test_real_transfer_hook(&mut ring_buffer, &mut config, 10, 100, 1), Ok(true));
    assert_eq!(config.updates_this_hour, 1);
    assert_eq!(test_real_transfer_hook(&mut ring_buffer, &mut config, 20, 100, 1), Ok(true));
    assert_eq!(config.updates_this_hour, 2);
    assert_eq!(config.last_hour_slot, 0);
    // The limit is reached: nothing is committed within the hour.
    let config_before = config;
    assert_eq!(test_real_transfer_hook(&mut ring_buffer, &mut config, 30, 100, 5), Ok(false));
    assert_eq!(test_real_transfer_hook(&mut ring_buffer, &mut config, 3599, 100, 6), Ok(false));
    assert_eq!(config, config_before);
    assert_eq!(ring_buffer.volume_accumulator, 11);
    // The hour rolls over at tick 3600: the commit is the first of a new hour.
    assert_eq!(test_real_transfer_hook(&mut ring_buffer, &mut config, 3600, 100, 7), Ok(true));
    assert_eq!(config.updates_this_hour, 1);
    assert_eq!(config.last_hour_slot, 3600);
    assert_eq!(config.last_update_slot, 3600);
    assert_eq!(ring_buffer.volume_accumulator, 0);
    assert_eq!(test_real_transfer_hook(&mut ring_buffer, &mut config, 3601, 100, 1), Ok(true));
    assert_eq!(config.updates_this_hour, 2);
    assert_eq!(config.last_hour_slot, 3600);
    assert_eq!(test_real_transfer_hook(&mut ring_buffer, &mut config, 7199, 100, 1), Ok(false));
    assert_eq!(test_real_transfer_hook(&mut ring_buffer, &mut config, 7200, 100, 1), Ok(true));
    assert_eq!(config.updates_this_hour, 1);
    assert_eq!(config.last_hour_slot, 7200);
}

#[test]
fn a_full_counter_starts_anew_after_the_hour() {
    let (mut config, mut ring_buffer) = setup(open_params(4));
    config.updates_this_hour = u32::MAX;
    assert_eq!(test_real_transfer_hook(&mut ring_buffer, &mut config, 3599, 100, 1), Ok(false));
    assert_eq!(test_real_transfer_hook(&mut ring_buffer, &mut config, 3600, 100, 1), Ok(true));
    assert_eq!(config.updates_this_hour, 1);
}

#[test]
fn the_decision_names_every_predicate() {
    let mut params = ConfigParams::default();
    params.min_price_change_bps = 0;
    let (mut config, mut ring_buffer) = setup(params);
    assert_eq!(
        should_update_ring_buffer(&ring_buffer, &config, 600, 100, 500_000_000),
        Ok(true)
    );
    assert_eq!(
        should_update_ring_buffer(&ring_buffer, &config, 599, 100, 500_000_000),
        Ok(false)
    );
    assert_eq!(
        should_update_ring_buffer(&ring_buffer, &config, 600, 100, 499_999_999),
        Ok(false)
    );
    ring_buffer.volume_accumulator = 1;
    assert_eq!(
        should_update_ring_buffer(&ring_buffer, &config, 600, 100, 499_999_999),
        Ok(true)
    );
    config.min_price_change_bps = 1;
    assert_eq!(
        should_update_ring_buffer(&ring_buffer, &config, 600, 100, 500_000_000),
        Ok(false)
    );
    ring_buffer.last_update_price = 100;
    assert_eq!(
        should_update_ring_buffer(&ring_buffer, &config, 600, 101, 500_000_000),
        Ok(true)
    );
    config.updates_this_hour = 6;
    assert_eq!(
        should_update_ring_buffer(&ring_buffer, &config, 600, 101, 500_000_000),
        Ok(false)
    );
    assert_eq!(
        should_update_ring_buffer(&ring_buffer, &config, 3600, 101, 500_000_000),
        Ok(true)
    );
}

#[test]
fn an_accumulated_volume_that_does_not_fit_fails_and_changes_nothing() {
    let (mut config, mut ring_buffer) = setup(ConfigParams::default());
    ring_buffer.volume_accumulator = u64::MAX;
    let config_before = config;
    let store_before = ring_buffer.clone();
    for now in [0u64, 599, 600, 10_000] {
        assert_eq!(
            test_real_transfer_hook(&mut ring_buffer, &mut config, now, 100, 1),
            Err(ErrorCode::ArithmeticOverflow)
        );
        assert_eq!(config, config_before);
        assert_eq!(ring_buffer, store_before);
    }
    assert_eq!(
        should_update_ring_buffer(&ring_buffer, &config, 0, 100, 1),
        Err(ErrorCode::ArithmeticOverflow)
    );
    assert_eq!(test_real_transfer_hook(&mut ring_buffer, &mut config, 0, 100, 0), Ok(false));
    assert_eq!(ring_buffer.volume_accumulator, u64::MAX);
}

#[test]
fn a_price_change_that_does_not_fit_fails_only_where_it_is_needed() {
    let (mut config, mut ring_buffer) = setup(ConfigParams::default());
    ring_buffer.last_update_price = 1;
    let config_before = config;
    let store_before = ring_buffer.clone();
    // Time and volume pass: the price change is computed and overflows.
    assert_eq!(
        test_real_transfer_hook(&mut ring_buffer, &mut config, 600, u128::MAX, 500_000_000),
        Err(ErrorCode::ArithmeticOverflow)
    );
    assert_eq!(config, config_before);
    assert_eq!(ring_buffer, store_before);
    // The volume does not pass: the sample is accumulated.
    assert_eq!(
        test_real_transfer_hook(&mut ring_buffer, &mut config, 600, u128::MAX, 1),
        Ok(false)
    );
    assert_eq!(ring_buffer.volume_accumulator, 1);
    // The time does not pass: the sample is accumulated.
    assert_eq!(
        test_real_transfer_hook(&mut ring_buffer, &mut config, 599, u128::MAX, 500_000_000),
        Ok(false)
    );
    assert_eq!(ring_buffer.volume_accumulator, 500_000_001);
}

#[test]
fn a_commit_whose_volumes_do_not_fit_fails_and_changes_nothing() {
    let (mut config, mut ring_buffer) = setup(open_params(2));
    ring_buffer.price_buckets[1] = PriceBucket { price: 5, volume: u64::MAX, timestamp: 1 };
    ring_buffer.total_volume = u64::MAX;
    ring_buffer.volume_accumulator = 0;
    let config_before = config;
    let store_before = ring_buffer.clone();
    assert_eq!(
        test_real_transfer_hook(&mut ring_buffer, &mut config, 50, 100, 1),
        Err(ErrorCode::ArithmeticOverflow)
    );
    assert_eq!(config, config_before);
    assert_eq!(ring_buffer, store_before);
}

#[test]
fn both_entry_points_do_the_same() {
    let (mut config_a, mut store_a) = setup(open_params(3));
    let (mut config_b, mut store_b) = setup(open_params(3));
    let samples: [(u64, u128, u64); 6] =
        [(1, 100, 5), (2, 0, 7), (3, 300, 0), (3599, 1, 1), (3600, 2, 2), (9000, 50, 50)];
    for (now, price, volume) in samples {
        let a = process_swap_data(&mut store_a, &mut config_a, now, price, volume);
        let b = test_real_transfer_hook(&mut store_b, &mut config_b, now, price, volume);
        assert_eq!(a, b);
        assert_eq!(config_a, config_b);
        assert_eq!(store_a, store_b);
    }
}

#[test]
fn the_ring_goes_round_and_keeps_its_size() {
    let (mut config, mut ring_buffer) = setup(open_params(3));
    for step in 0u64..10 {
        let price = 100 + step as u128;
        let volume = 10 + step;
        assert_eq!(
            test_real_transfer_hook(&mut ring_buffer, &mut config, step, price, volume),
            Ok(true)
        );
        assert_eq!(ring_buffer.price_buckets.len(), 3);
        assert_eq!(ring_buffer.bucket_count, 3);
        assert_eq!(ring_buffer.current_bucket_index as u64, (step + 1) % 3);
        assert_eq!(ring_buffer.last_update_price, price);
        let written = (step % 3) as usize;
        assert_eq!(
            ring_buffer.price_buckets[written],
            PriceBucket { price, volume, timestamp: step }
        );
        let cleared = ((step + 1) % 3) as usize;
        assert_eq!(ring_buffer.price_buckets[cleared], PriceBucket::empty());
    }
    // Steps 8 and 9 are left: volumes 18 and 19.
    assert_eq!(ring_buffer.total_volume, 37);
    // (108 * 18 + 109 * 19) / 37 = 108.5
    assert_eq!(ring_buffer.calculate_twap(), Ok(Some(108)));
}

#[test]
fn total_volume_stays_the_sum_of_the_priced_volumes() {
    let mut params = ConfigParams::default();
    params.bucket_count = 5;
    params.bucket_duration_slots = 2000;
    params.min_volume_threshold = 1000;
    params.max_updates_per_hour = 3;
    let (mut config, mut ring_buffer) = setup(params);
    // Without a last price no change is seen and nothing would ever commit.
    ring_buffer.last_update_price = 900;
    let mut now: u64 = 0;
    let mut price: u128 = 1000;
    let mut commits = 0;
    for step in 0u64..400 {
        now += 97 + (step * 37) % 400;
        price = price + (step as u128 * 13) % 50 + 1;
        let volume = 100 + (step * 7919) % 900;
        let committed =
            test_real_transfer_hook(&mut ring_buffer, &mut config, now, price, volume);
        if committed == Ok(true) {
            commits += 1;
        }
        assert!(committed.is_ok());
        assert_eq!(ring_buffer.price_buckets.len(), 5);
        assert!(ring_buffer.current_bucket_index < 5);
        let all: u64 = ring_buffer.price_buckets.iter().map(|b| b.volume).sum();
        assert_eq!(ring_buffer.total_volume, all);
        assert_eq!(ring_buffer.total_volume, priced_volume(&ring_buffer));
        assert!(config.updates_this_hour <= 3);
    }
    assert!(commits > 10);
}

#[test]
fn a_committed_volume_without_a_price_is_in_the_total_only() {
    let (mut config, mut ring_buffer) = setup(open_params(3));
    config.bucket_duration_slots = u64::MAX;
    assert_eq!(test_real_transfer_hook(&mut ring_buffer, &mut config, 1, 0, 5), Ok(true));
    assert_eq!(ring_buffer.total_volume, 5);
    assert_eq!(priced_volume(&ring_buffer), 0);
}
