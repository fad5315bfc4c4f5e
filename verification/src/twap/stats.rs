//! Least, greatest and median price among the buckets that carry a price.

use vstd::prelude::*;
use vstd::relations::{sorted_by, total_ordering};
use vstd::seq_lib::lemma_sorted_unique;
use crate::twap::state::{PriceBucket, TwapRingBuffer};

verus! {

/// The order of prices.
pub open spec fn at_most() -> spec_fn(u128, u128) -> bool {
    |a: u128, b: u128| a <= b
}

/// The prices of the buckets whose price is not 0, in the order of the buckets.
pub open spec fn nonzero_prices(buckets: Seq<PriceBucket>) -> Seq<u128>
    decreases buckets.len(),
{
    if buckets.len() == 0 {
        Seq::empty()
    } else if buckets.first().price > 0 {
        seq![buckets.first().price] + nonzero_prices(buckets.drop_first())
    } else {
        nonzero_prices(buckets.drop_first())
    }
}

/// The middle of a sorted sequence: the middle element where the length is
/// odd, else the mean of the two middle elements, rounded down.
pub open spec fn median(sorted: Seq<u128>) -> int
    recommends
        sorted.len() > 0,
{
    let middle = (sorted.len() / 2) as int;
    if sorted.len() % 2 == 0 {
        (sorted[middle - 1] + sorted[middle]) / 2
    } else {
        sorted[middle] as int
    }
}

/// Least, greatest and median of the nonzero prices, or nothing where no
/// bucket carries a price.
pub open spec fn price_stats(buckets: Seq<PriceBucket>) -> (
    Option<u128>,
    Option<u128>,
    Option<u128>,
) {
    let sorted = nonzero_prices(buckets).sort_by(at_most());
    if sorted.len() == 0 {
        (None, None, None)
    } else {
        (Some(sorted.first()), Some(sorted.last()), Some(median(sorted) as u128))
    }
}

/// The order of prices is total.
pub proof fn lemma_at_most_is_total()
    ensures
        total_ordering(at_most()),
{
    let leq = at_most();
    assert forall|x: u128, y: u128| #[trigger] leq(x, y) && #[trigger] leq(y, x) implies x == y by {}
    assert forall|x: u128, y: u128, z: u128| #[trigger] leq(x, y) && #[trigger] leq(y, z) implies leq(
        x,
        z,
    ) by {}
    assert forall|x: u128, y: u128| #[trigger] leq(x, y) || #[trigger] leq(y, x) by {}
    assert forall|x: u128| #[trigger] leq(x, x) by {}
}

/// A price put at the front of a sequence is added once to what the sequence
/// holds.
pub proof fn lemma_front_to_multiset(prices: Seq<u128>, price: u128)
    ensures
        (seq![price] + prices).to_multiset() == prices.to_multiset().insert(price),
{
    broadcast use vstd::multiset::group_multiset_axioms;
    broadcast use vstd::seq_lib::group_to_multiset_ensures;

    let longer = seq![price] + prices;
    assert(longer[0] == price);
    assert(longer.remove(0) =~= prices);
    assert(longer.to_multiset().remove(price) == prices.to_multiset());
    assert(longer.contains(price));
    assert(longer.to_multiset() =~= prices.to_multiset().insert(price));
}

/// Merges two ascending vectors into one.
fn merge_ascending(left: &Vec<u128>, right: &Vec<u128>) -> (merged: Vec<u128>)
    requires
        sorted_by(left@, at_most()),
        sorted_by(right@, at_most()),
    ensures
        sorted_by(merged@, at_most()),
        merged@.to_multiset() == left@.to_multiset().add(right@.to_multiset()),
{
    broadcast use vstd::multiset::group_multiset_axioms;
    broadcast use vstd::seq_lib::group_to_multiset_ensures;

    let mut merged: Vec<u128> = Vec::new();
    let mut i: usize = 0;
    let mut j: usize = 0;
    proof {
        assert(left@.take(0) =~= Seq::<u128>::empty());
        assert(right@.take(0) =~= Seq::<u128>::empty());
    }
    while i < left.len() || j < right.len()
        invariant
            i <= left.len(),
            j <= right.len(),
            sorted_by(left@, at_most()),
            sorted_by(right@, at_most()),
            sorted_by(merged@, at_most()),
            merged@.to_multiset() == left@.take(i as int).to_multiset().add(
                right@.take(j as int).to_multiset(),
            ),
            forall|k: int| 0 <= k < merged@.len() && i < left.len() ==> merged@[k] <= left@[i as int],
            forall|k: int|
                0 <= k < merged@.len() && j < right.len() ==> merged@[k] <= right@[j as int],
        decreases left.len() - i + right.len() - j,
    {
        let ghost before = merged@;
        if j >= right.len() || (i < left.len() && left[i] <= right[j]) {
            let price: u128 = left[i];
            merged.push(price);
            proof {
                vstd::seq_lib::to_multiset_build(before, price);
                vstd::seq_lib::to_multiset_build(left@.take(i as int), price);
                assert(left@.take(i + 1) =~= left@.take(i as int).push(price));
                assert(merged@.to_multiset() =~= left@.take(i + 1).to_multiset().add(
                    right@.take(j as int).to_multiset(),
                ));
                if i + 1 < left.len() {
                    assert(at_most()(left@[i as int], left@[i + 1]));
                }
            }
            i = i + 1;
        } else {
            let price: u128 = right[j];
            merged.push(price);
            proof {
                vstd::seq_lib::to_multiset_build(before, price);
                vstd::seq_lib::to_multiset_build(right@.take(j as int), price);
                assert(right@.take(j + 1) =~= right@.take(j as int).push(price));
                assert(merged@.to_multiset() =~= left@.take(i as int).to_multiset().add(
                    right@.take(j + 1).to_multiset(),
                ));
                if j + 1 < right.len() {
                    assert(at_most()(right@[j as int], right@[j + 1]));
                }
            }
            j = j + 1;
        }
        proof {
            let after = merged@;
            assert forall|a: int, b: int| 0 <= a < b < after.len() implies #[trigger] at_most()(
                after[a],
                after[b],
            ) by {
                if b < before.len() {
                    assert(at_most()(before[a], before[b]));
                }
            }
        }
    }
    proof {
        assert(left@.take(left.len() as int) =~= left@);
        assert(right@.take(right.len() as int) =~= right@);
    }
    merged
}

/// Sorts by halving and merging.
fn sort_ascending(prices: Vec<u128>) -> (sorted: Vec<u128>)
    ensures
        sorted_by(sorted@, at_most()),
        sorted@.to_multiset() == prices@.to_multiset(),
    decreases prices@.len(),
{
    if prices.len() <= 1 {
        return prices;
    }
    let ghost all = prices@;
    let middle: usize = prices.len() / 2;
    let mut left = prices;
    let right = left.split_off(middle);
    proof {
        assert(all =~= left@ + right@);
        vstd::seq_lib::lemma_multiset_commutative(left@, right@);
    }
    let left_sorted = sort_ascending(left);
    let right_sorted = sort_ascending(right);
    merge_ascending(&left_sorted, &right_sorted)
}

/// The nonzero prices of `buckets` in ascending order.
fn ascending_prices(buckets: &Vec<PriceBucket>) -> (prices: Vec<u128>)
    ensures
        prices@ == nonzero_prices(buckets@).sort_by(at_most()),
        sorted_by(prices@, at_most()),
{
    broadcast use vstd::seq_lib::group_to_multiset_ensures;

    let mut prices: Vec<u128> = Vec::new();
    let mut i: usize = buckets.len();
    proof {
        assert(buckets@.skip(i as int) =~= Seq::<PriceBucket>::empty());
    }
    while i > 0
        invariant
            i <= buckets.len(),
            prices@.to_multiset() == nonzero_prices(buckets@.skip(i as int)).to_multiset(),
        decreases i,
    {
        i = i - 1;
        let price: u128 = buckets[i].price;
        let ghost before = prices@;
        if price > 0 {
            prices.push(price);
        }
        proof {
            let tail = buckets@.skip(i as int);
            assert(tail.first() == buckets@[i as int]);
            assert(tail.drop_first() =~= buckets@.skip(i + 1));
            if price > 0 {
                lemma_front_to_multiset(nonzero_prices(buckets@.skip(i + 1)), price);
                assert(prices@ == before.push(price));
                vstd::seq_lib::to_multiset_build(before, price);
            }
        }
    }
    let sorted = sort_ascending(prices);
    proof {
        assert(buckets@.skip(0) =~= buckets@);
        lemma_at_most_is_total();
        nonzero_prices(buckets@).lemma_sort_by_ensures(at_most());
        lemma_sorted_unique(sorted@, nonzero_prices(buckets@).sort_by(at_most()), at_most());
    }
    sorted
}

impl TwapRingBuffer {
    /// Least, greatest and median price among the buckets that carry a price.
    pub fn get_price_stats(&self) -> (stats: (Option<u128>, Option<u128>, Option<u128>))
        ensures
            stats == price_stats(self.price_buckets@),
    {
        let prices = ascending_prices(&self.price_buckets);
        let count: usize = prices.len();
        if count == 0 {
            return (None, None, None);
        }
        let middle: usize = count / 2;
        let median_price: u128 = if count % 2 == 0 {
            let low: u128 = prices[middle - 1];
            let high: u128 = prices[middle];
            assert(at_most()(prices@[middle - 1], prices@[middle as int]));
            low + (high - low) / 2
        } else {
            prices[middle]
        };
        (Some(prices[0]), Some(prices[count - 1]), Some(median_price))
    }
}

} // verus!
