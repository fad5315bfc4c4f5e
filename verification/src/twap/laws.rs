//! What holds of the engine whatever samples it is given.

use vstd::prelude::*;
use vstd::relations::sorted_by;
use crate::twap::aggregate::{recent_populated, weight_sum, weighted_mean, weighted_sum};
use crate::twap::engine::{config_after_sample, sample_result, store_after_sample};
use crate::twap::error::ErrorCode;
use crate::twap::state::{volume_sum, PriceBucket, RingBufferView, TwapConfig};
use crate::twap::stats::{at_most, lemma_at_most_is_total, median, nonzero_prices, price_stats};
use crate::twap::store::{lemma_next_index, lemma_volume_sum_update, sample_bucket};

verus! {

/// One submitted sample.
pub struct Sample {
    pub price: u128,
    pub volume: u64,
    pub now: u64,
}

/// Sum of the volumes of the buckets that carry a price.
pub open spec fn priced_volume_sum(buckets: Seq<PriceBucket>) -> nat
    decreases buckets.len(),
{
    if buckets.len() == 0 {
        0
    } else if buckets.first().price > 0 {
        buckets.first().volume as nat + priced_volume_sum(buckets.drop_first())
    } else {
        priced_volume_sum(buckets.drop_first())
    }
}

/// No bucket carries a volume without a price.
pub open spec fn volume_has_price(buckets: Seq<PriceBucket>) -> bool {
    forall|i: int| 0 <= i < buckets.len() ==> (#[trigger] buckets[i]).price == 0 ==> buckets[i].volume
        == 0
}

/// The policy and the store after the samples were submitted one after the
/// other. A sample that fails leaves both as they were.
pub open spec fn after_samples(config: TwapConfig, store: RingBufferView, samples: Seq<Sample>) -> (
    TwapConfig,
    RingBufferView,
)
    decreases samples.len(),
{
    if samples.len() == 0 {
        (config, store)
    } else {
        let first = samples.first();
        after_samples(
            config_after_sample(config, store, first.price, first.volume, first.now),
            store_after_sample(config, store, first.price, first.volume, first.now),
            samples.drop_first(),
        )
    }
}

/// Every sample that is committed on the way carries a price or no volume.
pub open spec fn commits_are_priced(
    config: TwapConfig,
    store: RingBufferView,
    samples: Seq<Sample>,
) -> bool
    decreases samples.len(),
{
    if samples.len() == 0 {
        true
    } else {
        let first = samples.first();
        &&& sample_result(config, store, first.price, first.volume, first.now) == Ok::<
            bool,
            ErrorCode,
        >(true) ==> first.price > 0 || first.volume == 0
        &&& commits_are_priced(
            config_after_sample(config, store, first.price, first.volume, first.now),
            store_after_sample(config, store, first.price, first.volume, first.now),
            samples.drop_first(),
        )
    }
}

/// Where no bucket carries a volume without a price, the volumes of the
/// buckets with a price add up to the volumes of all buckets.
pub proof fn lemma_priced_volume_sum(buckets: Seq<PriceBucket>)
    requires
        volume_has_price(buckets),
    ensures
        priced_volume_sum(buckets) == volume_sum(buckets),
    decreases buckets.len(),
{
    if buckets.len() > 0 {
        let rest = buckets.drop_first();
        assert forall|i: int| 0 <= i < rest.len() && (#[trigger] rest[i]).price == 0 implies rest[i].volume
            == 0 by {
            assert(rest[i] == buckets[i + 1]);
        }
        assert(buckets[0].price == 0 ==> buckets[0].volume == 0);
        lemma_priced_volume_sum(rest);
    }
}

/// A submitted sample leaves a well-formed store well formed: it keeps its
/// number of buckets, its index stays within them, and `total_volume` stays the
/// sum of the volumes of all buckets. This holds whether the sample was
/// committed, accumulated or refused.
pub proof fn sample_keeps_store_well_formed(
    config: TwapConfig,
    store: RingBufferView,
    price: u128,
    volume: u64,
    now: u64,
)
    requires
        store.wf(),
    ensures
        store_after_sample(config, store, price, volume, now).wf(),
        store_after_sample(config, store, price, volume, now).bucket_count == store.bucket_count,
{
    if sample_result(config, store, price, volume, now) == Ok::<bool, ErrorCode>(true) {
        let bucket = sample_bucket(price, volume, now);
        let filled = RingBufferView {
            volume_accumulator: 0,
            last_update_price: price,
            ..store.written(bucket)
        };
        assert(filled.wf());
        if now >= config.bucket_duration_slots {
            lemma_next_index(filled.current_bucket_index as int, filled.bucket_count as int);
            lemma_volume_sum_update(
                filled.price_buckets,
                filled.next_index(),
                PriceBucket { price: 0, volume: 0, timestamp: 0 },
            );
        }
    }
}

/// A submitted sample that carries a price or no volume, or that is not
/// committed, leaves no bucket with a volume and without a price where there
/// was none before.
pub proof fn sample_keeps_volume_priced(
    config: TwapConfig,
    store: RingBufferView,
    price: u128,
    volume: u64,
    now: u64,
)
    requires
        store.wf(),
        volume_has_price(store.price_buckets),
        sample_result(config, store, price, volume, now) == Ok::<bool, ErrorCode>(true) ==> price
            > 0 || volume == 0,
    ensures
        volume_has_price(store_after_sample(config, store, price, volume, now).price_buckets),
{
    if sample_result(config, store, price, volume, now) == Ok::<bool, ErrorCode>(true) {
        let filled = store.written(sample_bucket(price, volume, now));
        assert(volume_has_price(filled.price_buckets));
        if now >= config.bucket_duration_slots {
            lemma_next_index(filled.current_bucket_index as int, filled.bucket_count as int);
            assert(volume_has_price(filled.advanced().price_buckets));
        }
    }
}

/// After any sequence of submitted samples, `total_volume` is the sum of the
/// volumes of the buckets that carry a price, provided that the store was well
/// formed and without a volume that has no price at the start, and that no
/// sample with a volume and without a price was committed on the way.
pub proof fn total_volume_is_priced_volume(
    config: TwapConfig,
    store: RingBufferView,
    samples: Seq<Sample>,
)
    requires
        store.wf(),
        volume_has_price(store.price_buckets),
        commits_are_priced(config, store, samples),
    ensures
        after_samples(config, store, samples).1.wf(),
        volume_has_price(after_samples(config, store, samples).1.price_buckets),
        after_samples(config, store, samples).1.total_volume == priced_volume_sum(
            after_samples(config, store, samples).1.price_buckets,
        ),
    decreases samples.len(),
{
    if samples.len() == 0 {
        lemma_priced_volume_sum(store.price_buckets);
    } else {
        let first = samples.first();
        sample_keeps_store_well_formed(config, store, first.price, first.volume, first.now);
        sample_keeps_volume_priced(config, store, first.price, first.volume, first.now);
        total_volume_is_priced_volume(
            config_after_sample(config, store, first.price, first.volume, first.now),
            store_after_sample(config, store, first.price, first.volume, first.now),
            samples.drop_first(),
        );
    }
}

/// Every bucket is whole: it carries a price and a volume, or neither.
pub open spec fn buckets_are_whole(buckets: Seq<PriceBucket>) -> bool {
    forall|i: int|
        0 <= i < buckets.len() ==> (#[trigger] buckets[i]).is_empty() || buckets[i].is_populated()
}

/// A submitted sample that carries a price and a volume, or that is not
/// committed, leaves every bucket whole where every bucket was whole before.
pub proof fn sample_keeps_buckets_whole(
    config: TwapConfig,
    store: RingBufferView,
    price: u128,
    volume: u64,
    now: u64,
)
    requires
        store.wf(),
        buckets_are_whole(store.price_buckets),
        sample_result(config, store, price, volume, now) == Ok::<bool, ErrorCode>(true) ==> price
            > 0 && volume > 0,
    ensures
        buckets_are_whole(store_after_sample(config, store, price, volume, now).price_buckets),
{
    if sample_result(config, store, price, volume, now) == Ok::<bool, ErrorCode>(true) {
        let filled = store.written(sample_bucket(price, volume, now));
        assert(buckets_are_whole(filled.price_buckets));
        if now >= config.bucket_duration_slots {
            lemma_next_index(filled.current_bucket_index as int, filled.bucket_count as int);
            assert(buckets_are_whole(filled.advanced().price_buckets));
        }
    }
}

/// After a commit nothing is accumulated, and the committed price is the last
/// one; after a refusal the last price is what it was.
pub proof fn commit_empties_accumulator(
    config: TwapConfig,
    store: RingBufferView,
    price: u128,
    volume: u64,
    now: u64,
)
    requires
        store.wf(),
    ensures
        sample_result(config, store, price, volume, now) == Ok::<bool, ErrorCode>(true)
            ==> store_after_sample(config, store, price, volume, now).volume_accumulator == 0
            && store_after_sample(config, store, price, volume, now).last_update_price == price,
        sample_result(config, store, price, volume, now) != Ok::<bool, ErrorCode>(true)
            ==> store_after_sample(config, store, price, volume, now).last_update_price
            == store.last_update_price,
{
}

/// Where nothing overflows, a sample is committed exactly where all four
/// predicates pass.
pub proof fn commit_needs_every_gate(
    config: TwapConfig,
    store: RingBufferView,
    price: u128,
    volume: u64,
    now: u64,
)
    requires
        sample_result(config, store, price, volume, now) is Ok,
    ensures
        sample_result(config, store, price, volume, now) == Ok::<bool, ErrorCode>(true) <==> (
        config.by_time(now as int) && config.by_volume(store.volume_accumulator + volume)
            && config.by_price(price as int, store.last_update_price as int) && config.by_rate(
            now as int,
        )),
{
}

/// A sample that is not committed adds its volume to the accumulated volume
/// and changes nothing else, neither in the store nor in the policy.
pub proof fn refused_sample_is_accumulated(
    config: TwapConfig,
    store: RingBufferView,
    price: u128,
    volume: u64,
    now: u64,
)
    requires
        sample_result(config, store, price, volume, now) == Ok::<bool, ErrorCode>(false),
    ensures
        store_after_sample(config, store, price, volume, now) == (RingBufferView {
            volume_accumulator: (store.volume_accumulator + volume) as u64,
            ..store
        }),
        store.volume_accumulator + volume <= u64::MAX,
        config_after_sample(config, store, price, volume, now) == config,
{
}

/// Time gate: before `min_update_interval` ticks have passed since the last
/// commit, no sample is committed, and its volume is accumulated as long as it
/// fits.
pub proof fn time_gate_blocks(
    config: TwapConfig,
    store: RingBufferView,
    price: u128,
    volume: u64,
    now: u64,
)
    requires
        now - config.last_update_slot < config.min_update_interval,
        store.volume_accumulator + volume <= u64::MAX,
    ensures
        sample_result(config, store, price, volume, now) == Ok::<bool, ErrorCode>(false),
        store_after_sample(config, store, price, volume, now).volume_accumulator
            == store.volume_accumulator + volume,
{
}

/// Volume gate: while the accumulated volume with the sample's own stays below
/// `min_volume_threshold`, the sample is not committed, whatever the other
/// predicates say.
pub proof fn volume_gate_blocks(
    config: TwapConfig,
    store: RingBufferView,
    price: u128,
    volume: u64,
    now: u64,
)
    requires
        store.volume_accumulator + volume < config.min_volume_threshold,
    ensures
        sample_result(config, store, price, volume, now) == Ok::<bool, ErrorCode>(false),
        store_after_sample(config, store, price, volume, now).volume_accumulator
            == store.volume_accumulator + volume,
{
}

/// Rate limit: once the commits counted in the hour have reached
/// `max_updates_per_hour`, nothing is committed before the hour has rolled
/// over.
pub proof fn rate_limit_blocks(
    config: TwapConfig,
    store: RingBufferView,
    price: u128,
    volume: u64,
    now: u64,
)
    requires
        config.updates_this_hour >= config.max_updates_per_hour,
        now - config.last_hour_slot < 3600,
    ensures
        sample_result(config, store, price, volume, now) != Ok::<bool, ErrorCode>(true),
        config_after_sample(config, store, price, volume, now) == config,
{
}

/// Rate limit: the first commit after the hour has rolled over is counted as
/// the first of a new hour that begins with it, however many were counted
/// before.
pub proof fn rollover_restarts_count(
    config: TwapConfig,
    store: RingBufferView,
    price: u128,
    volume: u64,
    now: u64,
)
    requires
        now - config.last_hour_slot >= 3600,
        sample_result(config, store, price, volume, now) == Ok::<bool, ErrorCode>(true),
    ensures
        config_after_sample(config, store, price, volume, now).updates_this_hour == 1,
        config_after_sample(config, store, price, volume, now).last_hour_slot == now,
        config_after_sample(config, store, price, volume, now).last_update_slot == now,
{
}

/// Within an hour, each commit is counted: the count goes up by one and stays
/// within `max_updates_per_hour`.
pub proof fn commit_is_counted(
    config: TwapConfig,
    store: RingBufferView,
    price: u128,
    volume: u64,
    now: u64,
)
    requires
        now - config.last_hour_slot < 3600,
        sample_result(config, store, price, volume, now) == Ok::<bool, ErrorCode>(true),
    ensures
        config_after_sample(config, store, price, volume, now).updates_this_hour
            == config.updates_this_hour + 1,
        config_after_sample(config, store, price, volume, now).updates_this_hour
            <= config.max_updates_per_hour,
        config_after_sample(config, store, price, volume, now).last_hour_slot
            == config.last_hour_slot,
{
}

/// A failed sample changes neither the store nor the policy.
pub proof fn failed_sample_changes_nothing(
    config: TwapConfig,
    store: RingBufferView,
    price: u128,
    volume: u64,
    now: u64,
)
    requires
        sample_result(config, store, price, volume, now) is Err,
    ensures
        store_after_sample(config, store, price, volume, now) == store,
        config_after_sample(config, store, price, volume, now) == config,
        sample_result(config, store, price, volume, now) == Err::<bool, ErrorCode>(
            ErrorCode::ArithmeticOverflow,
        ),
{
}

/// The averages and the statistics are functions of the buckets and of the
/// current index alone: two stores that agree on these give the same results,
/// so a query that is repeated on an unchanged store returns what it returned
/// before.
pub proof fn queries_repeat(first: RingBufferView, second: RingBufferView, window: u32)
    requires
        first.price_buckets == second.price_buckets,
        first.current_bucket_index == second.current_bucket_index,
    ensures
        weighted_mean(first.price_buckets) == weighted_mean(second.price_buckets),
        weighted_mean(
            recent_populated(
                first.price_buckets,
                first.current_bucket_index as int,
                window as nat,
            ),
        ) == weighted_mean(
            recent_populated(
                second.price_buckets,
                second.current_bucket_index as int,
                window as nat,
            ),
        ),
        price_stats(first.price_buckets) == price_stats(second.price_buckets),
{
}

/// Whether every populated bucket has its price between `low` and `high`.
pub open spec fn prices_lie_between(buckets: Seq<PriceBucket>, low: int, high: int) -> bool {
    forall|i: int|
        0 <= i < buckets.len() && (#[trigger] buckets[i]).is_populated() ==> low <= buckets[i].price
            <= high
}

/// The weighted sum lies between the least and the greatest price, each times
/// the weight.
pub proof fn lemma_weighted_sum_bounds(buckets: Seq<PriceBucket>, low: int, high: int)
    requires
        prices_lie_between(buckets, low, high),
    ensures
        low * weight_sum(buckets) <= weighted_sum(buckets) <= high * weight_sum(buckets),
    decreases buckets.len(),
{
    if buckets.len() > 0 {
        let first = buckets.first();
        let rest = buckets.drop_first();
        assert forall|i: int| 0 <= i < rest.len() && (#[trigger] rest[i]).is_populated() implies low
            <= rest[i].price <= high by {
            assert(rest[i] == buckets[i + 1]);
        }
        lemma_weighted_sum_bounds(rest, low, high);
        let weight = weight_sum(rest) as int;
        let sum = weighted_sum(rest) as int;
        if first.is_populated() {
            let p = first.price as int;
            let v = first.volume as int;
            assert(buckets[0].is_populated());
            assert(p * v >= 0) by (nonlinear_arith)
                requires
                    p >= 0,
                    v >= 0,
            ;
            assert(weighted_sum(buckets) == p * v + sum);
            assert(weight_sum(buckets) == v + weight);
            assert(low * (v + weight) <= p * v + sum <= high * (v + weight)) by (nonlinear_arith)
                requires
                    low <= p <= high,
                    v > 0,
                    low * weight <= sum <= high * weight,
            ;
        }
    } else {
        assert(low * 0 == 0 && high * 0 == 0) by (nonlinear_arith);
    }
}

/// An average lies between the least and the greatest price that entered it:
/// where all populated buckets have their price between `low` and `high`, so
/// has their weighted mean.
pub proof fn mean_lies_between_prices(buckets: Seq<PriceBucket>, low: int, high: int)
    requires
        prices_lie_between(buckets, low, high),
        weighted_mean(buckets) is Ok,
        weighted_mean(buckets).unwrap() is Some,
    ensures
        low <= weighted_mean(buckets).unwrap().unwrap() <= high,
{
    lemma_weighted_sum_bounds(buckets, low, high);
    let sum = weighted_sum(buckets) as int;
    let weight = weight_sum(buckets) as int;
    assert(low <= sum / weight <= high) by (nonlinear_arith)
        requires
            weight > 0,
            low * weight <= sum <= high * weight,
    ;
}

/// Every bucket in the window of the volume-weighted average is a bucket of
/// the store, so that average too lies between the least and the greatest
/// price of the populated buckets.
pub proof fn window_mean_lies_between_prices(
    buckets: Seq<PriceBucket>,
    from: int,
    limit: nat,
    low: int,
    high: int,
)
    requires
        prices_lie_between(buckets, low, high),
        weighted_mean(recent_populated(buckets, from, limit)) is Ok,
        weighted_mean(recent_populated(buckets, from, limit)).unwrap() is Some,
    ensures
        low <= weighted_mean(recent_populated(buckets, from, limit)).unwrap().unwrap() <= high,
{
    lemma_window_prices_lie_between(buckets, from, limit, low, high);
    mean_lies_between_prices(recent_populated(buckets, from, limit), low, high);
}

/// The prices in the window lie where the prices of the store lie.
pub proof fn lemma_window_prices_lie_between(
    buckets: Seq<PriceBucket>,
    from: int,
    limit: nat,
    low: int,
    high: int,
)
    requires
        prices_lie_between(buckets, low, high),
    ensures
        prices_lie_between(recent_populated(buckets, from, limit), low, high),
    decreases from + 1,
{
    if from < 0 || limit == 0 {
    } else if from < buckets.len() && buckets[from].is_populated() {
        lemma_window_prices_lie_between(buckets, from - 1, (limit - 1) as nat, low, high);
        let rest = recent_populated(buckets, from - 1, (limit - 1) as nat);
        let window = seq![buckets[from]] + rest;
        assert forall|i: int| 0 <= i < window.len() && (#[trigger] window[i]).is_populated() implies low
            <= window[i].price <= high by {
            if i > 0 {
                assert(window[i] == rest[i - 1]);
            }
        }
    } else {
        lemma_window_prices_lie_between(buckets, from - 1, limit, low, high);
    }
}

/// The window of the volume-weighted average holds populated buckets only, at
/// most as many as were asked for and no more than lie between the start of
/// the walk and index 0.
pub proof fn window_is_bounded_and_populated(buckets: Seq<PriceBucket>, from: int, limit: nat)
    ensures
        recent_populated(buckets, from, limit).len() <= limit,
        recent_populated(buckets, from, limit).len() <= from + 1 || from < 0,
        forall|i: int|
            0 <= i < recent_populated(buckets, from, limit).len() ==> (#[trigger] recent_populated(
                buckets,
                from,
                limit,
            )[i]).is_populated(),
    decreases from + 1,
{
    if from < 0 || limit == 0 {
    } else if from < buckets.len() && buckets[from].is_populated() {
        window_is_bounded_and_populated(buckets, from - 1, (limit - 1) as nat);
    } else {
        window_is_bounded_and_populated(buckets, from - 1, limit);
    }
}

/// Whether some bucket carries the price `price`.
pub open spec fn is_price_of(buckets: Seq<PriceBucket>, price: u128) -> bool {
    exists|i: int| 0 <= i < buckets.len() && (#[trigger] buckets[i]).price == price
}

/// Every price that is not 0 is among the nonzero prices, and every nonzero
/// price is the price of some bucket and not 0.
pub proof fn lemma_nonzero_prices_are_the_prices(buckets: Seq<PriceBucket>)
    ensures
        forall|i: int|
            0 <= i < buckets.len() && (#[trigger] buckets[i]).price > 0 ==> nonzero_prices(
                buckets,
            ).contains(buckets[i].price),
        forall|k: int|
            0 <= k < nonzero_prices(buckets).len() ==> is_price_of(
                buckets,
                #[trigger] nonzero_prices(buckets)[k],
            ) && nonzero_prices(buckets)[k] > 0,
    decreases buckets.len(),
{
    if buckets.len() > 0 {
        let rest = buckets.drop_first();
        let prices = nonzero_prices(buckets);
        let rest_prices = nonzero_prices(rest);
        lemma_nonzero_prices_are_the_prices(rest);
        let shift: int = if buckets[0].price > 0 {
            1
        } else {
            0
        };
        assert(forall|k: int| 0 <= k < rest_prices.len() ==> rest_prices[k] == prices[k + shift]);
        assert forall|i: int| 0 <= i < buckets.len() && (#[trigger] buckets[i]).price
            > 0 implies prices.contains(buckets[i].price) by {
            if i == 0 {
                assert(prices[0] == buckets[0].price);
            } else {
                assert(rest[i - 1] == buckets[i]);
                assert(rest_prices.contains(rest[i - 1].price));
                let k = choose|k: int| 0 <= k < rest_prices.len() && rest_prices[k] == rest[i
                    - 1].price;
                assert(prices[k + shift] == buckets[i].price);
            }
        }
        assert forall|k: int| 0 <= k < prices.len() implies is_price_of(
            buckets,
            #[trigger] prices[k],
        ) && prices[k] > 0 by {
            if shift == 1 && k == 0 {
                assert(buckets[0].price == prices[0]);
            } else {
                assert(is_price_of(rest, rest_prices[k - shift]));
                let j = choose|j: int|
                    0 <= j < rest.len() && (#[trigger] rest[j]).price == rest_prices[k - shift];
                assert(buckets[j + 1] == rest[j]);
            }
        }
    }
}

/// Whether `least`, `greatest` and `middle` bound the prices of the buckets:
/// the least and the greatest are prices of buckets, no price that is not 0
/// lies outside them, and the middle lies between them.
pub open spec fn bound_the_prices(
    buckets: Seq<PriceBucket>,
    least: u128,
    greatest: u128,
    middle: u128,
) -> bool {
    &&& least <= middle <= greatest
    &&& forall|i: int|
        0 <= i < buckets.len() && (#[trigger] buckets[i]).price > 0 ==> least <= buckets[i].price
            <= greatest
    &&& is_price_of(buckets, least)
    &&& is_price_of(buckets, greatest)
}

/// The statistics are those of the prices: where any bucket carries a price,
/// there are all three and they bound the prices; where none does, there are
/// none.
pub proof fn stats_bound_every_price(buckets: Seq<PriceBucket>)
    ensures
        (forall|i: int| 0 <= i < buckets.len() ==> (#[trigger] buckets[i]).price == 0)
            ==> price_stats(buckets) == (None::<u128>, None::<u128>, None::<u128>),
        (exists|i: int| 0 <= i < buckets.len() && (#[trigger] buckets[i]).price > 0)
            ==> price_stats(buckets).0 is Some && price_stats(buckets).1 is Some && price_stats(
            buckets,
        ).2 is Some && bound_the_prices(
            buckets,
            price_stats(buckets).0.unwrap(),
            price_stats(buckets).1.unwrap(),
            price_stats(buckets).2.unwrap(),
        ),
{
    broadcast use vstd::seq_lib::group_to_multiset_ensures;

    let prices = nonzero_prices(buckets);
    let sorted = prices.sort_by(at_most());
    lemma_at_most_is_total();
    prices.lemma_sort_by_ensures(at_most());
    lemma_nonzero_prices_are_the_prices(buckets);
    assert(sorted.len() == prices.len()) by {
        assert(sorted.to_multiset().len() == prices.to_multiset().len());
    }
    if exists|i: int| 0 <= i < buckets.len() && (#[trigger] buckets[i]).price > 0 {
        let witness = choose|i: int| 0 <= i < buckets.len() && (#[trigger] buckets[i]).price > 0;
        assert(prices.contains(buckets[witness].price));
        assert(prices.len() > 0);
        let count = sorted.len() as int;
        let middle = count / 2;
        assert(at_most()(sorted[0], sorted[middle]) || middle == 0);
        assert(at_most()(sorted[middle], sorted[count - 1]) || middle == count - 1);
        if count % 2 == 0 {
            assert(at_most()(sorted[0], sorted[middle - 1]) || middle - 1 == 0);
            assert(at_most()(sorted[middle - 1], sorted[middle]));
        }
        assert(sorted[0] <= median(sorted) <= sorted[count - 1]);
        assert forall|i: int| 0 <= i < buckets.len() && (#[trigger] buckets[i]).price
            > 0 implies sorted[0] <= buckets[i].price <= sorted[count - 1] by {
            let price = buckets[i].price;
            assert(prices.contains(price));
            assert(prices.to_multiset().count(price) > 0);
            assert(sorted.to_multiset().count(price) > 0);
            assert(sorted.contains(price));
            let k = choose|k: int| 0 <= k < sorted.len() && sorted[k] == price;
            assert(at_most()(sorted[0], sorted[k]) || k == 0);
            assert(at_most()(sorted[k], sorted[count - 1]) || k == count - 1);
        }
        assert(sorted.contains(sorted[0]));
        assert(sorted.contains(sorted[count - 1]));
        assert(prices.contains(sorted[0])) by {
            assert(sorted.to_multiset().count(sorted[0]) > 0);
        }
        assert(prices.contains(sorted[count - 1])) by {
            assert(sorted.to_multiset().count(sorted[count - 1]) > 0);
        }
        let low = choose|k: int| 0 <= k < prices.len() && prices[k] == sorted[0];
        let high = choose|k: int| 0 <= k < prices.len() && prices[k] == sorted[count - 1];
        assert(is_price_of(buckets, prices[low]));
        assert(is_price_of(buckets, prices[high]));
        assert(sorted.first() == prices[low]);
        assert(sorted.last() == prices[high]);
    }
    if forall|i: int| 0 <= i < buckets.len() ==> (#[trigger] buckets[i]).price == 0 {
        if prices.len() > 0 {
            assert(is_price_of(buckets, prices[0]) && prices[0] > 0);
            assert(false);
        }
    }
}

} // verus!
