//! Moving-median filters over the last three and the last five samples.
//!
//! The filters are `moving_median::MovingMedian` values. What a filter's
//! window holds is named by a specification function, and what the median of
//! a window is, is defined here by order statistics. The contracts of the
//! calls into `moving_median` are taken on trust from that crate's source;
//! everything built on them is proved.

use vstd::prelude::*;
use moving_median::MovingMedian;
use crate::buffers::push_evicting;

verus! {

/// Largest sample a filter takes in: the mean of two samples up to this
/// value can be formed without overflow.
pub const SAMPLE_LIMIT: u32 = 0x7fff_ffff;

/// Window length of a [`MedianFilter3`].
pub const WINDOW_3: usize = 3;

/// Window length of a [`MedianFilter5`].
pub const WINDOW_5: usize = 5;

/// Number of samples of `window` that are less than `x`.
pub open spec fn count_below(window: Seq<u32>, x: int) -> int
    decreases window.len(),
{
    if window.len() == 0 {
        0
    } else {
        count_below(window.drop_last(), x) + if window.last() < x {
            1int
        } else {
            0int
        }
    }
}

/// Number of samples of `window` that are greater than `x`.
pub open spec fn count_above(window: Seq<u32>, x: int) -> int
    decreases window.len(),
{
    if window.len() == 0 {
        0
    } else {
        count_above(window.drop_last(), x) + if window.last() > x {
            1int
        } else {
            0int
        }
    }
}

/// Whether `x` is the sample that stands at position `k` (counted from zero)
/// when `window` is put in ascending order: it occurs in the window, at most
/// `k` samples are smaller and at most `len - 1 - k` are larger.
pub open spec fn is_order_statistic(window: Seq<u32>, k: int, x: int) -> bool {
    &&& exists|i: int| 0 <= i < window.len() && #[trigger] window[i] == x
    &&& count_below(window, x) <= k
    &&& count_above(window, x) <= window.len() - 1 - k
}

/// Whether `lo` and `hi` are the two middle samples of a window with an even
/// number of samples, and `m` is their mean, rounded down.
pub open spec fn is_middle_pair(window: Seq<u32>, lo: int, hi: int, m: int) -> bool {
    &&& is_order_statistic(window, window.len() as int / 2 - 1, lo)
    &&& is_order_statistic(window, window.len() as int / 2, hi)
    &&& m == (lo + hi) / 2
}

/// Whether `m` is the median of `window`: the middle sample in ascending
/// order for an odd number of samples, the mean (rounded down) of the two
/// middle samples for an even number.
pub open spec fn is_median(window: Seq<u32>, m: int) -> bool {
    if window.len() % 2 == 1 {
        is_order_statistic(window, window.len() as int / 2, m)
    } else {
        exists|lo: int, hi: int| is_middle_pair(window, lo, hi, m)
    }
}

/// The median of `window`, for a window that has one (every window but the
/// empty one does).
pub open spec fn median_of(window: Seq<u32>) -> int {
    choose|m: int| is_median(window, m)
}

/// Whether every sample of `window` is at most `bound`.
pub open spec fn samples_at_most(window: Seq<u32>, bound: int) -> bool {
    forall|i: int| 0 <= i < window.len() ==> #[trigger] window[i] <= bound
}

/// Whether every sample of `window` is within the sample limit.
pub open spec fn samples_within_limit(window: Seq<u32>) -> bool {
    forall|i: int| 0 <= i < window.len() ==> #[trigger] window[i] <= SAMPLE_LIMIT
}

/// The middle one of three values.
pub open spec fn middle_of_three(a: int, b: int, c: int) -> int {
    if (a <= b && b <= c) || (c <= b && b <= a) {
        b
    } else if (b <= a && a <= c) || (c <= a && a <= b) {
        a
    } else {
        c
    }
}

/// `moving_median::MovingMedian`: a moving-median filter over the last `N`
/// values of type `T`. Its contents are opaque here; see [`window3`] and
/// [`window5`].
#[verifier::external_type_specification]
#[verifier::external_body]
#[verifier::reject_recursive_types(T)]
pub struct ExMovingMedian<T, const N: usize>(MovingMedian<T, N>);

/// The samples in the window of a three-sample filter, oldest first.
pub uninterp spec fn window3(filter: MovingMedian<u32, 3>) -> Seq<u32>;

/// The samples in the window of a five-sample filter, oldest first.
pub uninterp spec fn window5(filter: MovingMedian<u32, 5>) -> Seq<u32>;

/// `MovingMedian::new`: a new filter has an empty window.
#[verifier::external_body]
fn filter3_new() -> (filter: MovingMedian<u32, 3>)
    ensures
        window3(filter) == Seq::<u32>::empty(),
{
    MovingMedian::new()
}

/// `MovingMedian::add_value`: the value enters the window; once the window
/// holds three samples the oldest one leaves. (The call only refuses values
/// that are not equal to themselves, which no integer is.)
#[verifier::external_body]
fn filter3_add_value(filter: &mut MovingMedian<u32, 3>, value: u32)
    ensures
        window3(*final(filter)) == push_evicting(window3(*old(filter)), WINDOW_3 as int, value),
{
    let _ = filter.add_value(value);
}

/// `MovingMedian::median`: `None` for an empty window, otherwise the median
/// of the samples in the window. For an even number of samples the call adds
/// the two middle samples, so the samples must be small enough for that sum.
#[verifier::external_body]
fn filter3_median(filter: &MovingMedian<u32, 3>) -> (median: Option<u32>)
    requires
        samples_within_limit(window3(*filter)),
    ensures
        median.is_some() <==> window3(*filter).len() > 0,
        median.is_some() ==> is_median(window3(*filter), median.unwrap() as int),
{
    filter.median()
}

/// `MovingMedian::len`: the number of samples in the window, never more than
/// its length.
#[verifier::external_body]
fn filter3_len(filter: &MovingMedian<u32, 3>) -> (n: usize)
    ensures
        n == window3(*filter).len(),
        n <= WINDOW_3,
{
    filter.len()
}

/// `MovingMedian::new`: a new filter has an empty window.
#[verifier::external_body]
fn filter5_new() -> (filter: MovingMedian<u32, 5>)
    ensures
        window5(filter) == Seq::<u32>::empty(),
{
    MovingMedian::new()
}

/// `MovingMedian::add_value`: the value enters the window; once the window
/// holds five samples the oldest one leaves. (The call only refuses values
/// that are not equal to themselves, which no integer is.)
#[verifier::external_body]
fn filter5_add_value(filter: &mut MovingMedian<u32, 5>, value: u32)
    ensures
        window5(*final(filter)) == push_evicting(window5(*old(filter)), WINDOW_5 as int, value),
{
    let _ = filter.add_value(value);
}

/// `MovingMedian::median`: `None` for an empty window, otherwise the median
/// of the samples in the window. For an even number of samples the call adds
/// the two middle samples, so the samples must be small enough for that sum.
#[verifier::external_body]
fn filter5_median(filter: &MovingMedian<u32, 5>) -> (median: Option<u32>)
    requires
        samples_within_limit(window5(*filter)),
    ensures
        median.is_some() <==> window5(*filter).len() > 0,
        median.is_some() ==> is_median(window5(*filter), median.unwrap() as int),
{
    filter.median()
}

/// `MovingMedian::len`: the number of samples in the window, never more than
/// its length.
#[verifier::external_body]
fn filter5_len(filter: &MovingMedian<u32, 5>) -> (n: usize)
    ensures
        n == window5(*filter).len(),
        n <= WINDOW_5,
{
    filter.len()
}

/// Every sample is less than `y` or greater than `x` when `x < y`, so the two
/// counts cover the window.
proof fn lemma_counts_cover(window: Seq<u32>, x: int, y: int)
    requires
        x < y,
    ensures
        count_below(window, y) + count_above(window, x) >= window.len(),
        0 <= count_below(window, x) <= window.len(),
        0 <= count_above(window, x) <= window.len(),
    decreases window.len(),
{
    if window.len() > 0 {
        lemma_counts_cover(window.drop_last(), x, y);
    }
}

/// The sample at a position of the ascending order is determined by the
/// window.
pub proof fn lemma_order_statistic_unique(window: Seq<u32>, k: int, x: int, y: int)
    requires
        is_order_statistic(window, k, x),
        is_order_statistic(window, k, y),
    ensures
        x == y,
{
    if x < y {
        lemma_counts_cover(window, x, y);
    } else if y < x {
        lemma_counts_cover(window, y, x);
    }
}

/// A window has at most one median.
pub proof fn lemma_median_unique(window: Seq<u32>, m1: int, m2: int)
    requires
        is_median(window, m1),
        is_median(window, m2),
    ensures
        m1 == m2,
{
    let half = window.len() as int / 2;
    if window.len() % 2 == 1 {
        lemma_order_statistic_unique(window, half, m1, m2);
    } else {
        let (lo1, hi1) = choose|lo: int, hi: int| is_middle_pair(window, lo, hi, m1);
        let (lo2, hi2) = choose|lo: int, hi: int| is_middle_pair(window, lo, hi, m2);
        lemma_order_statistic_unique(window, half - 1, lo1, lo2);
        lemma_order_statistic_unique(window, half, hi1, hi2);
    }
}

/// The median of an odd number of samples is one of the samples.
pub proof fn lemma_odd_median_is_sample(window: Seq<u32>, m: int)
    requires
        window.len() % 2 == 1,
        is_median(window, m),
    ensures
        exists|i: int| 0 <= i < window.len() && #[trigger] window[i] == m,
{
}

/// The median of three samples is the middle one of them.
pub proof fn lemma_median_of_three(a: u32, b: u32, c: u32, m: int)
    ensures
        is_median(seq![a, b, c], m) <==> m == middle_of_three(a as int, b as int, c as int),
{
    let window = seq![a, b, c];
    let mid = middle_of_three(a as int, b as int, c as int);
    reveal_with_fuel(count_below, 4);
    reveal_with_fuel(count_above, 4);
    assert(window.drop_last() =~= seq![a, b]);
    assert(window.drop_last().drop_last() =~= seq![a]);
    assert(window.drop_last().drop_last().drop_last() =~= Seq::<u32>::empty());
    assert(window[0] == a && window[1] == b && window[2] == c);
    assert(is_order_statistic(window, 1, mid));
    if is_median(window, m) {
        lemma_order_statistic_unique(window, 1, m, mid);
    }
}

/// A moving-median filter over the last three samples.
pub struct MedianFilter3 {
    filter: MovingMedian<u32, 3>,
}

impl MedianFilter3 {
    /// The samples in the window, oldest first.
    pub closed spec fn view(&self) -> Seq<u32> {
        window3(self.filter)
    }

    /// The window holds at most three samples, each within the sample limit.
    pub closed spec fn wf(&self) -> bool {
        samples_within_limit(window3(self.filter)) && window3(self.filter).len() <= WINDOW_3
    }

    /// The window of a well-formed filter holds at most three samples, each
    /// within the sample limit.
    pub proof fn lemma_wf(&self)
        requires
            self.wf(),
        ensures
            self@.len() <= WINDOW_3,
            samples_within_limit(self@),
    {
    }

    /// A filter with an empty window.
    pub fn new() -> (filter: Self)
        ensures
            filter@ == Seq::<u32>::empty(),
            filter.wf(),
    {
        MedianFilter3 { filter: filter3_new() }
    }

    /// Number of samples in the window.
    pub fn len(&self) -> (n: usize)
        ensures
            n == self@.len(),
    {
        filter3_len(&self.filter)
    }

    /// Takes `value` into the window; the oldest sample leaves once three
    /// are held.
    pub fn add_value(&mut self, value: u32)
        requires
            old(self).wf(),
            value <= SAMPLE_LIMIT,
        ensures
            final(self).wf(),
            final(self)@ == push_evicting(old(self)@, WINDOW_3 as int, value),
    {
        filter3_add_value(&mut self.filter, value);
    }

    /// The median of the window: `None` for an empty window, otherwise the
    /// true median of the samples it holds.
    pub fn median(&self) -> (median: Option<u32>)
        requires
            self.wf(),
        ensures
            median.is_some() <==> self@.len() > 0,
            median matches Some(m) ==> is_median(self@, m as int) && m == median_of(self@),
    {
        let median = filter3_median(&self.filter);
        proof {
            if let Some(m) = median {
                lemma_median_unique(self@, m as int, median_of(self@));
            }
        }
        median
    }
}

/// A moving-median filter over the last five samples.
pub struct MedianFilter5 {
    filter: MovingMedian<u32, 5>,
}

impl MedianFilter5 {
    /// The samples in the window, oldest first.
    pub closed spec fn view(&self) -> Seq<u32> {
        window5(self.filter)
    }

    /// The window holds at most five samples, each within the sample limit.
    pub closed spec fn wf(&self) -> bool {
        samples_within_limit(window5(self.filter)) && window5(self.filter).len() <= WINDOW_5
    }

    /// The window of a well-formed filter holds at most five samples, each
    /// within the sample limit.
    pub proof fn lemma_wf(&self)
        requires
            self.wf(),
        ensures
            self@.len() <= WINDOW_5,
            samples_within_limit(self@),
    {
    }

    /// A filter with an empty window.
    pub fn new() -> (filter: Self)
        ensures
            filter@ == Seq::<u32>::empty(),
            filter.wf(),
    {
        MedianFilter5 { filter: filter5_new() }
    }

    /// Number of samples in the window.
    pub fn len(&self) -> (n: usize)
        ensures
            n == self@.len(),
    {
        filter5_len(&self.filter)
    }

    /// Takes `value` into the window; the oldest sample leaves once five
    /// are held.
    pub fn add_value(&mut self, value: u32)
        requires
            old(self).wf(),
            value <= SAMPLE_LIMIT,
        ensures
            final(self).wf(),
            final(self)@ == push_evicting(old(self)@, WINDOW_5 as int, value),
    {
        filter5_add_value(&mut self.filter, value);
    }

    /// The median of the window: `None` for an empty window, otherwise the
    /// true median of the samples it holds.
    pub fn median(&self) -> (median: Option<u32>)
        requires
            self.wf(),
        ensures
            median.is_some() <==> self@.len() > 0,
            median matches Some(m) ==> is_median(self@, m as int) && m == median_of(self@),
    {
        let median = filter5_median(&self.filter);
        proof {
            if let Some(m) = median {
                lemma_median_unique(self@, m as int, median_of(self@));
            }
        }
        median
    }
}

/// The median of samples that are all at most `bound` is at most `bound`,
/// and it is never negative.
pub proof fn lemma_median_bounded(window: Seq<u32>, bound: int, m: int)
    requires
        samples_at_most(window, bound),
        is_median(window, m),
    ensures
        0 <= m <= bound,
{
    if window.len() % 2 == 0 {
        let (lo, hi) = choose|lo: int, hi: int| is_middle_pair(window, lo, hi, m);
        assert(0 <= lo <= bound);
        assert(0 <= hi <= bound);
    }
}

/// Some sample of a non-empty window stands at each position of its
/// ascending order.
pub proof fn lemma_order_statistic_exists(window: Seq<u32>, k: int)
    requires
        0 <= k < window.len(),
    ensures
        exists|x: int| is_order_statistic(window, k, x),
{
    let leq = |a: u32, b: u32| a <= b;
    assert(vstd::relations::total_ordering(leq));
    let sorted = window.sort_by(leq);
    window.lemma_sort_by_ensures(leq);
    window.to_multiset_ensures();
    sorted.to_multiset_ensures();
    assert(sorted.len() == window.len());
    let x = sorted[k] as int;
    lemma_sorted_counts(sorted, k);
    lemma_counts_of_permutation(window, sorted, x);
    assert(sorted.contains(sorted[k]));
    assert(window.contains(sorted[k]));
    let i = choose|i: int| 0 <= i < window.len() && window[i] == sorted[k];
    assert(window[i] == x);
    assert(is_order_statistic(window, k, x));
}

/// Every non-empty window has a median.
pub proof fn lemma_median_exists(window: Seq<u32>)
    requires
        window.len() > 0,
    ensures
        is_median(window, median_of(window)),
{
    let half = window.len() as int / 2;
    if window.len() % 2 == 1 {
        lemma_order_statistic_exists(window, half);
        let m = choose|x: int| is_order_statistic(window, half, x);
        assert(is_median(window, m));
    } else {
        let below = half - 1;
        lemma_order_statistic_exists(window, below);
        lemma_order_statistic_exists(window, half);
        let lo = choose|x: int| is_order_statistic(window, below, x);
        let hi = choose|x: int| is_order_statistic(window, half, x);
        assert(is_middle_pair(window, lo, hi, (lo + hi) / 2));
        assert(is_median(window, (lo + hi) / 2));
    }
}

/// Every window with an odd number of samples has a median.
pub proof fn lemma_median_of_odd_exists(window: Seq<u32>)
    requires
        window.len() % 2 == 1,
    ensures
        is_median(window, median_of(window)),
{
    lemma_median_exists(window);
}

/// In an ascending window, the samples before a position are not above the
/// sample at it and those after it are not below it.
proof fn lemma_sorted_counts(sorted: Seq<u32>, k: int)
    requires
        0 <= k < sorted.len(),
        vstd::relations::sorted_by(sorted, |a: u32, b: u32| a <= b),
    ensures
        count_below(sorted, sorted[k] as int) <= k,
        count_above(sorted, sorted[k] as int) <= sorted.len() - 1 - k,
{
    let x = sorted[k] as int;
    lemma_prefix_counts(sorted, x, sorted.len() as int, k);
}

/// Counting over the first `n` samples of an ascending window, around the
/// sample at position `k`.
proof fn lemma_prefix_counts(sorted: Seq<u32>, x: int, n: int, k: int)
    requires
        0 <= k < sorted.len(),
        0 <= n <= sorted.len(),
        x == sorted[k],
        vstd::relations::sorted_by(sorted, |a: u32, b: u32| a <= b),
    ensures
        count_below(sorted.take(n), x) <= if n <= k {
            n
        } else {
            k
        },
        count_above(sorted.take(n), x) <= if n <= k {
            0
        } else {
            n - 1 - k
        },
        n == sorted.len() ==> sorted.take(n) == sorted,
    decreases n,
{
    if n > 0 {
        lemma_prefix_counts(sorted, x, n - 1, k);
        assert(sorted.take(n).drop_last() =~= sorted.take(n - 1));
        assert(sorted.take(n).last() == sorted[n - 1]);
        let leq = |a: u32, b: u32| a <= b;
        if n - 1 < k {
            assert(leq(sorted[n - 1], sorted[k]));
        } else if n - 1 > k {
            assert(leq(sorted[k], sorted[n - 1]));
        }
    }
    if n == sorted.len() {
        assert(sorted.take(n) =~= sorted);
    }
}

/// Windows that hold the same samples, in whatever order, have the same
/// counts.
proof fn lemma_counts_of_permutation(a: Seq<u32>, b: Seq<u32>, x: int)
    requires
        a.to_multiset() == b.to_multiset(),
    ensures
        count_below(a, x) == count_below(b, x),
        count_above(a, x) == count_above(b, x),
    decreases a.len(),
{
    a.to_multiset_ensures();
    b.to_multiset_ensures();
    if a.len() == 0 {
        assert(b.len() == 0);
    } else {
        let last = a.last();
        assert(a.contains(last));
        assert(b.to_multiset().count(last) > 0);
        assert(b.contains(last));
        let j = choose|j: int| 0 <= j < b.len() && b[j] == last;
        let b_rest = b.remove(j);
        assert(a.drop_last().to_multiset() =~= a.to_multiset().remove(last)) by {
            assert(a.drop_last() =~= a.remove(a.len() - 1));
        }
        assert(b_rest.to_multiset() =~= b.to_multiset().remove(last));
        lemma_counts_of_permutation(a.drop_last(), b_rest, x);
        lemma_counts_remove(b, j, x);
    }
}

/// Taking a sample out of a window lowers each count by what that sample
/// contributed.
proof fn lemma_counts_remove(window: Seq<u32>, j: int, x: int)
    requires
        0 <= j < window.len(),
    ensures
        count_below(window, x) == count_below(window.remove(j), x) + if window[j] < x {
            1int
        } else {
            0int
        },
        count_above(window, x) == count_above(window.remove(j), x) + if window[j] > x {
            1int
        } else {
            0int
        },
    decreases window.len(),
{
    if j == window.len() - 1 {
        assert(window.remove(j) =~= window.drop_last());
    } else {
        lemma_counts_remove(window.drop_last(), j, x);
        assert(window.remove(j).drop_last() =~= window.drop_last().remove(j));
        assert(window.remove(j).last() == window.last());
    }
}

} // verus!
