//! Round-trip-time statistics over whole nanoseconds.
//!
//! Durations are signed counts of nanoseconds. Ordering and arithmetic on
//! them are exact, so the extrema and the mean of a hop can be stated and
//! proved without rounding concerns other than the final division, which
//! rounds towards negative infinity.

use vstd::prelude::*;

verus! {

/// The sum of the values.
pub open spec fn total(values: Seq<int>) -> int
    decreases values.len(),
{
    if values.len() == 0 {
        0
    } else {
        total(values.drop_last()) + values.last()
    }
}

/// The arithmetic mean of the values, rounded down to a whole number; zero
/// for no values.
pub open spec fn mean(values: Seq<int>) -> int {
    if values.len() == 0 {
        0
    } else {
        total(values) / (values.len() as int)
    }
}

/// `v` occurs in `values` and no value is smaller.
pub open spec fn is_least(v: int, values: Seq<int>) -> bool {
    &&& exists|i: int| 0 <= i < values.len() && values[i] == v
    &&& forall|i: int| 0 <= i < values.len() ==> v <= values[i]
}

/// `v` occurs in `values` and no value is greater.
pub open spec fn is_greatest(v: int, values: Seq<int>) -> bool {
    &&& exists|i: int| 0 <= i < values.len() && values[i] == v
    &&& forall|i: int| 0 <= i < values.len() ==> values[i] <= v
}

/// The least value of a non-empty sequence is `values.min()`.
pub proof fn lemma_least_is_min(v: int, values: Seq<int>)
    requires
        is_least(v, values),
    ensures
        values.min() == v,
{
    values.min_ensures();
    let i = choose|i: int| 0 <= i < values.len() && values[i] == v;
    assert(values.contains(values[i]));
    let m = values.min();
    assert(values.contains(m));
    let j = choose|j: int| 0 <= j < values.len() && values[j] == m;
    assert(v <= values[j]);
}

/// The greatest value of a non-empty sequence is `values.max()`.
pub proof fn lemma_greatest_is_max(v: int, values: Seq<int>)
    requires
        is_greatest(v, values),
    ensures
        values.max() == v,
{
    values.max_ensures();
    let i = choose|i: int| 0 <= i < values.len() && values[i] == v;
    assert(values.contains(values[i]));
    let m = values.max();
    assert(values.contains(m));
    let j = choose|j: int| 0 <= j < values.len() && values[j] == m;
    assert(values[j] <= v);
}

/// A sum lies between the count times a lower bound and the count times an
/// upper bound of its terms.
pub proof fn lemma_total_bounds(values: Seq<int>, low: int, high: int)
    requires
        forall|i: int| 0 <= i < values.len() ==> low <= #[trigger] values[i] && values[i] <= high,
    ensures
        values.len() * low <= total(values) <= values.len() * high,
    decreases values.len(),
{
    if values.len() > 0 {
        let earlier = values.drop_last();
        lemma_total_bounds(earlier, low, high);
        assert(values.len() * low == earlier.len() * low + low) by (nonlinear_arith)
            requires
                values.len() == earlier.len() + 1,
        ;
        assert(values.len() * high == earlier.len() * high + high) by (nonlinear_arith)
            requires
                values.len() == earlier.len() + 1,
        ;
    }
}

/// The mean of a non-empty sequence lies between its least and its greatest
/// value.
pub proof fn lemma_mean_between_extrema(values: Seq<int>)
    requires
        values.len() > 0,
    ensures
        values.min() <= mean(values) <= values.max(),
{
    values.min_ensures();
    values.max_ensures();
    lemma_total_bounds(values, values.min(), values.max());
    let n = values.len() as int;
    let t = total(values);
    let lo = values.min();
    let hi = values.max();
    assert(lo <= t / n <= hi) by (nonlinear_arith)
        requires
            n > 0,
            n * lo <= t <= n * hi,
    ;
}

/// Divides `sum` by a positive `count`, rounding towards negative infinity.
pub fn floor_div(sum: i128, count: u64) -> (q: i128)
    requires
        count > 0,
    ensures
        q == sum as int / count as int,
{
    let n: u128 = count as u128;
    if sum >= 0 {
        let s: u128 = sum as u128;
        let q: u128 = s / n;
        assert(q <= s) by (nonlinear_arith)
            requires
                q == s / n,
                n > 0,
        ;
        q as i128
    } else {
        // -sum fits: sum > i128::MIN is not guaranteed, so go through sum + 1.
        let above: u128 = (-(sum + 1)) as u128;
        let q: u128 = above / n;
        assert(q <= above) by (nonlinear_arith)
            requires
                q == above / n,
                n > 0,
        ;
        let r: i128 = -(q as i128) - 1;
        assert(r == sum as int / n as int) by (nonlinear_arith)
            requires
                n > 0,
                sum < 0,
                above == -(sum + 1),
                q == above as int / n as int,
                r == -q - 1,
        ;
        r
    }
}

} // verus!
