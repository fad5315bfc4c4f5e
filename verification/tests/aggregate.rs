use twap_hook::pubkey::Pubkey;
use twap_hook::twap::error::ErrorCode;
use twap_hook::twap::state::{PriceBucket, TwapRingBuffer};

fn store(buckets: &[(u128, u64)], current_bucket_index: u32) -> TwapRingBuffer {
    let price_buckets: Vec<PriceBucket> = buckets
        .iter()
        .enumerate()
        .map(|(i, (price, volume))| PriceBucket {
            price: *price,
            volume: *volume,
            timestamp: i as u64,
        })
        .collect();
    TwapRingBuffer {
        config: Pubkey::default(),
        base_mint: Pubkey::default(),
        quote_mint: Pubkey::default(),
        current_bucket_index,
        bucket_count: buckets.len() as u32,
        volume_accumulator: 0,
        last_update_price: 0,
        total_volume: buckets.iter().map(|(_, volume)| *volume).sum(),
        price_buckets,
        bump: 0,
    }
}

fn priced(prices: &[u128]) -> TwapRingBuffer {
    let buckets: Vec<(u128, u64)> = prices.iter().map(|p| (*p, 1u64)).collect();
    store(&buckets, 0)
}

#[test]
fn twap_weights_each_price_by_its_volume() {
    let ring_buffer = store(&[(100, 10), (200, 30)], 0);
    assert_eq!(ring_buffer.calculate_twap(), Ok(Some(175)));
}

#[test]
fn twap_rounds_down() {
    // (100 * 1 + 101 * 2) / 3 = 100.67
    let ring_buffer = store(&[(100, 1), (101, 2)], 0);
    assert_eq!(ring_buffer.calculate_twap(), Ok(Some(100)));
}

#[test]
fn twap_of_nothing_is_no_value() {
    assert_eq!(store(&[], 0).calculate_twap(), Ok(None));
    assert_eq!(store(&[(0, 0), (0, 0), (0, 0)], 0).calculate_twap(), Ok(None));
}

#[test]
fn twap_passes_over_buckets_without_price_or_volume() {
    let ring_buffer = store(&[(0, 50), (100, 10), (700, 0), (200, 30), (0, 0)], 0);
    assert_eq!(ring_buffer.calculate_twap(), Ok(Some(175)));
    assert_eq!(store(&[(0, 50), (700, 0)], 0).calculate_twap(), Ok(None));
}

#[test]
fn twap_of_one_bucket_is_its_price() {
    assert_eq!(store(&[(12345, 7)], 0).calculate_twap(), Ok(Some(12345)));
    assert_eq!(store(&[(u128::MAX, 1)], 0).calculate_twap(), Ok(Some(u128::MAX)));
}

#[test]
fn twap_reports_a_weighted_sum_that_does_not_fit() {
    assert_eq!(
        store(&[(u128::MAX, 2)], 0).calculate_twap(),
        Err(ErrorCode::ArithmeticOverflow)
    );
    let half: u128 = u128::MAX / 2 + 1;
    assert_eq!(
        store(&[(half, 1), (half, 1)], 0).calculate_twap(),
        Err(ErrorCode::ArithmeticOverflow)
    );
    assert_eq!(
        store(&[(half, 1), (half - 1, 1)], 0).calculate_twap(),
        Ok(Some(u128::MAX / 2))
    );
    assert_eq!(
        store(&[(1, 1), (u128::MAX / 4, 5)], 0).calculate_twap(),
        Err(ErrorCode::ArithmeticOverflow)
    );
}

#[test]
fn twap_takes_volumes_that_add_up_beyond_64_bits() {
    let ring_buffer = store(&[(10, u64::MAX), (30, u64::MAX)], 0);
    assert_eq!(ring_buffer.calculate_twap(), Ok(Some(20)));
}

#[test]
fn vwap_walks_down_from_the_current_bucket() {
    let ring_buffer = store(&[(100, 10), (0, 0), (300, 30), (400, 40), (500, 50)], 3);
    assert_eq!(ring_buffer.calculate_vwap(0), Ok(None));
    assert_eq!(ring_buffer.calculate_vwap(1), Ok(Some(400)));
    // (400 * 40 + 300 * 30) / 70 = 357.14
    assert_eq!(ring_buffer.calculate_vwap(2), Ok(Some(357)));
    // (400 * 40 + 300 * 30 + 100 * 10) / 80 = 325
    assert_eq!(ring_buffer.calculate_vwap(3), Ok(Some(325)));
    // There are no more populated buckets below; the one above is not reached.
    assert_eq!(ring_buffer.calculate_vwap(4), Ok(Some(325)));
    assert_eq!(ring_buffer.calculate_vwap(u32::MAX), Ok(Some(325)));
}

#[test]
fn vwap_does_not_go_round() {
    let ring_buffer = store(&[(100, 10), (200, 20), (300, 30)], 0);
    assert_eq!(ring_buffer.calculate_vwap(3), Ok(Some(100)));
    let ring_buffer = store(&[(0, 0), (200, 20), (300, 30)], 0);
    assert_eq!(ring_buffer.calculate_vwap(3), Ok(None));
}

#[test]
fn vwap_from_the_last_bucket_can_reach_all() {
    let ring_buffer = store(&[(100, 10), (200, 30)], 1);
    assert_eq!(ring_buffer.calculate_vwap(2), Ok(Some(175)));
    assert_eq!(ring_buffer.calculate_vwap(1), Ok(Some(200)));
}

#[test]
fn vwap_passes_over_an_index_past_the_end() {
    let ring_buffer = store(&[(100, 10), (500, 50)], 10);
    assert_eq!(ring_buffer.calculate_vwap(1), Ok(Some(500)));
    let ring_buffer = store(&[(100, 10), (500, 50)], u32::MAX);
    assert_eq!(ring_buffer.calculate_vwap(1), Ok(Some(500)));
    assert_eq!(store(&[], 0).calculate_vwap(4), Ok(None));
    assert_eq!(store(&[], 7).calculate_vwap(4), Ok(None));
}

#[test]
fn vwap_reports_a_weighted_sum_that_does_not_fit() {
    let ring_buffer = store(&[(u128::MAX, 2), (100, 10)], 1);
    assert_eq!(ring_buffer.calculate_vwap(1), Ok(Some(100)));
    assert_eq!(ring_buffer.calculate_vwap(2), Err(ErrorCode::ArithmeticOverflow));
}

#[test]
fn stats_give_least_greatest_and_median() {
    let ring_buffer = priced(&[50, 10, 30, 20, 40]);
    assert_eq!(ring_buffer.get_price_stats(), (Some(10), Some(50), Some(30)));
}

#[test]
fn stats_average_the_two_middle_prices_of_an_even_number() {
    assert_eq!(
        priced(&[40, 10, 30, 20]).get_price_stats(),
        (Some(10), Some(40), Some(25))
    );
    // (1 + 2) / 2 rounds down.
    assert_eq!(priced(&[2, 1]).get_price_stats(), (Some(1), Some(2), Some(1)));
    assert_eq!(
        priced(&[u128::MAX, u128::MAX]).get_price_stats(),
        (Some(u128::MAX), Some(u128::MAX), Some(u128::MAX))
    );
    assert_eq!(
        priced(&[u128::MAX, u128::MAX - 3]).get_price_stats(),
        (Some(u128::MAX - 3), Some(u128::MAX), Some(u128::MAX - 2))
    );
}

#[test]
fn stats_of_one_price_are_that_price() {
    assert_eq!(priced(&[77]).get_price_stats(), (Some(77), Some(77), Some(77)));
}

#[test]
fn stats_of_nothing_are_no_values() {
    assert_eq!(store(&[], 0).get_price_stats(), (None, None, None));
    assert_eq!(store(&[(0, 0), (0, 9)], 0).get_price_stats(), (None, None, None));
}

#[test]
fn stats_count_every_price_that_is_not_zero() {
    // A price counts even without a volume; equal prices count each time.
    let ring_buffer = store(&[(30, 0), (0, 5), (10, 1), (30, 2), (0, 0), (20, 0)], 0);
    assert_eq!(ring_buffer.get_price_stats(), (Some(10), Some(30), Some(25)));
    assert_eq!(priced(&[5, 5, 5]).get_price_stats(), (Some(5), Some(5), Some(5)));
    assert_eq!(priced(&[9, 1, 9, 1, 9]).get_price_stats(), (Some(1), Some(9), Some(9)));
}

#[test]
fn queries_repeat_their_results_and_leave_the_store_alone() {
    let ring_buffer = store(&[(100, 10), (0, 0), (300, 30), (400, 40), (500, 50)], 3);
    let before = ring_buffer.clone();
    let twap = ring_buffer.calculate_twap();
    let vwap = ring_buffer.calculate_vwap(2);
    let stats = ring_buffer.get_price_stats();
    assert_eq!(ring_buffer.calculate_twap(), twap);
    assert_eq!(ring_buffer.calculate_vwap(2), vwap);
    assert_eq!(ring_buffer.get_price_stats(), stats);
    assert_eq!(ring_buffer.calculate_twap(), twap);
    assert_eq!(ring_buffer, before);
    // (1000 + 9000 + 16000 + 25000) / 130 = 392.3
    assert_eq!(twap, Ok(Some(392)));
    assert_eq!(stats, (Some(100), Some(500), Some(350)));
}
