//! The recurrences and window statistics that the indicators share.
//!
//! Every kernel is stated twice: as a mathematical function over the
//! operations of a [`Scalar`], and as the executable function that computes
//! it. The whole-series and the step-by-step form of an indicator both go
//! through these, which is what makes them agree.

use crate::scalar::Scalar;
use vstd::prelude::*;

verus! {

/// The number zero.
pub open spec fn zero_spec<T: Scalar>() -> T {
    T::from_count_spec(0)
}

/// The distance of `x` from zero.
pub open spec fn magnitude_spec<T: Scalar>(x: T) -> T {
    if x.below(zero_spec()) {
        zero_spec::<T>().minus(x)
    } else {
        x
    }
}

/// The greater of two numbers; `a` where neither is below the other.
pub open spec fn larger_spec<T: Scalar>(a: T, b: T) -> T {
    if a.below(b) {
        b
    } else {
        a
    }
}

/// The lesser of two numbers; `a` where neither is below the other.
pub open spec fn smaller_spec<T: Scalar>(a: T, b: T) -> T {
    if b.below(a) {
        b
    } else {
        a
    }
}

/// The weight `2 / (period + 1)` that exponential smoothing gives to the
/// newest sample.
pub open spec fn smoothing_factor_spec<T: Scalar>(period: usize) -> T {
    T::from_count_spec(2).over(T::from_count_spec(period).plus(T::from_count_spec(1)))
}

/// One step of exponential smoothing: `a * sample + (1 - a) * prev`, with
/// `a` the smoothing factor of `period`.
pub open spec fn ema_step_spec<T: Scalar>(sample: T, prev: T, period: usize) -> T {
    let a = smoothing_factor_spec::<T>(period);
    a.times(sample).plus(T::from_count_spec(1).minus(a).times(prev))
}

/// One step of Wilder smoothing: `prev - prev / period + sample`.
pub open spec fn wilder_step_spec<T: Scalar>(sample: T, prev: T, period: usize) -> T {
    prev.minus(prev.over(T::from_count_spec(period))).plus(sample)
}

/// The sum of the `count` entries of `xs` from index `start` on, added to
/// zero from the oldest to the newest.
pub open spec fn window_sum_spec<T: Scalar>(xs: Seq<T>, start: int, count: nat) -> T
    decreases count,
{
    if count == 0 {
        zero_spec()
    } else {
        window_sum_spec(xs, start, (count - 1) as nat).plus(xs[start + count - 1])
    }
}

/// The mean of the `count` entries of `xs` from index `start` on.
pub open spec fn window_mean_spec<T: Scalar>(xs: Seq<T>, start: int, count: usize) -> T {
    window_sum_spec(xs, start, count as nat).over(T::from_count_spec(count))
}

/// The greatest of the `count` entries of `xs` from index `start` on,
/// compared from the oldest to the newest (`count` is at least 1).
pub open spec fn window_highest_spec<T: Scalar>(xs: Seq<T>, start: int, count: nat) -> T
    decreases count,
{
    if count <= 1 {
        xs[start]
    } else {
        larger_spec(window_highest_spec(xs, start, (count - 1) as nat), xs[start + count - 1])
    }
}

/// The least of the `count` entries of `xs` from index `start` on, compared
/// from the oldest to the newest (`count` is at least 1).
pub open spec fn window_lowest_spec<T: Scalar>(xs: Seq<T>, start: int, count: nat) -> T
    decreases count,
{
    if count <= 1 {
        xs[start]
    } else {
        smaller_spec(window_lowest_spec(xs, start, (count - 1) as nat), xs[start + count - 1])
    }
}

/// The exponential moving average of `period` over the entries of `xs` from
/// index `start` on, at index `i`. It is seeded with the mean of the first
/// `period` entries, which stands at index `start + period - 1`, and advanced
/// by one smoothing step per index after that.
pub open spec fn ema_at<T: Scalar>(xs: Seq<T>, start: int, period: usize, i: int) -> T
    recommends
        0 <= start,
        start + period - 1 <= i < xs.len(),
    decreases i - start + 1,
{
    if i <= start + period - 1 {
        window_mean_spec(xs, start, period)
    } else {
        ema_step_spec(xs[i], ema_at(xs, start, period, i - 1), period)
    }
}

/// The Wilder-smoothed accumulator of `period` over the entries of `xs` from
/// index `start` on, at index `i`. It is seeded with the sum of the first
/// `period` entries, which stands at index `start + period - 1`, and advanced
/// by one smoothing step per index after that.
pub open spec fn wilder_at<T: Scalar>(xs: Seq<T>, start: int, period: usize, i: int) -> T
    recommends
        0 <= start,
        start + period - 1 <= i < xs.len(),
    decreases i - start + 1,
{
    if i <= start + period - 1 {
        window_sum_spec(xs, start, period as nat)
    } else {
        wilder_step_spec(xs[i], wilder_at(xs, start, period, i - 1), period)
    }
}

/// The four sums that a least-squares line through a window needs, in the
/// order: sum of the positions, sum of their squares, sum of the values, sum
/// of the products of position and value. The positions count from zero at
/// the oldest entry; each sum is added to zero from the oldest to the
/// newest.
pub open spec fn regression_sums_spec<T: Scalar>(xs: Seq<T>, start: int, count: nat) -> (
    T,
    T,
    T,
    T,
)
    decreases count,
{
    if count == 0 {
        (zero_spec(), zero_spec(), zero_spec(), zero_spec())
    } else {
        let before = regression_sums_spec(xs, start, (count - 1) as nat);
        let position = T::from_count_spec((count - 1) as usize);
        let value = xs[start + count - 1];
        (
            before.0.plus(position),
            before.1.plus(position.times(position)),
            before.2.plus(value),
            before.3.plus(position.times(value)),
        )
    }
}

/// The slope and the intercept of the least-squares line through the
/// `period` entries of `xs` from index `start` on: with `n` the period and
/// the four sums `sx`, `sxx`, `sy`, `sxy`, the slope is
/// `(n * sxy - sx * sy) / (n * sxx - sx * sx)` and the intercept is
/// `(sy - slope * sx) / n`.
pub open spec fn regression_line_spec<T: Scalar>(xs: Seq<T>, start: int, period: usize) -> (T, T) {
    let sums = regression_sums_spec(xs, start, period as nat);
    let n = T::from_count_spec(period);
    let slope = n.times(sums.3).minus(sums.0.times(sums.2)).over(
        n.times(sums.1).minus(sums.0.times(sums.0)),
    );
    let intercept = sums.2.minus(slope.times(sums.0)).over(n);
    (slope, intercept)
}

/// Returns the distance of `x` from zero.
pub fn magnitude<T: Scalar>(x: T) -> (r: T)
    ensures
        r == magnitude_spec(x),
{
    let zero = T::from_count(0);
    if x.below(zero) {
        zero.minus(x)
    } else {
        x
    }
}

/// Returns the greater of two numbers.
pub fn larger<T: Scalar>(a: T, b: T) -> (r: T)
    ensures
        r == larger_spec(a, b),
{
    if a.below(b) {
        b
    } else {
        a
    }
}

/// Returns the lesser of two numbers.
pub fn smaller<T: Scalar>(a: T, b: T) -> (r: T)
    ensures
        r == smaller_spec(a, b),
{
    if b.below(a) {
        b
    } else {
        a
    }
}

/// Advances an exponential moving average of `period` by one sample.
pub fn ema_step<T: Scalar>(sample: T, prev: T, period: usize) -> (r: T)
    ensures
        r == ema_step_spec(sample, prev, period),
{
    let one = T::from_count(1);
    let a = T::from_count(2).over(T::from_count(period).plus(one));
    a.times(sample).plus(one.minus(a).times(prev))
}

/// Advances a Wilder-smoothed accumulator of `period` by one sample.
pub fn wilder_step<T: Scalar>(sample: T, prev: T, period: usize) -> (r: T)
    ensures
        r == wilder_step_spec(sample, prev, period),
{
    prev.minus(prev.over(T::from_count(period))).plus(sample)
}

/// Sums the `count` entries of `xs` from index `start` on.
pub fn window_sum<T: Scalar>(xs: &[T], start: usize, count: usize) -> (r: T)
    requires
        start + count <= xs.len(),
    ensures
        r == window_sum_spec(xs@, start as int, count as nat),
{
    let mut acc = T::from_count(0);
    let mut k: usize = 0;
    while k < count
        invariant
            k <= count,
            start + count <= xs.len(),
            acc == window_sum_spec(xs@, start as int, k as nat),
        decreases count - k,
    {
        acc = acc.plus(xs[start + k]);
        k += 1;
    }
    acc
}

/// Averages the `count` entries of `xs` from index `start` on.
pub fn window_mean<T: Scalar>(xs: &[T], start: usize, count: usize) -> (r: T)
    requires
        start + count <= xs.len(),
    ensures
        r == window_mean_spec(xs@, start as int, count),
{
    window_sum(xs, start, count).over(T::from_count(count))
}

/// Scans the `count` entries of `xs` from index `start` on for the greatest.
pub fn window_highest<T: Scalar>(xs: &[T], start: usize, count: usize) -> (r: T)
    requires
        count >= 1,
        start + count <= xs.len(),
    ensures
        r == window_highest_spec(xs@, start as int, count as nat),
{
    let mut best = xs[start];
    let mut k: usize = 1;
    while k < count
        invariant
            1 <= k <= count,
            start + count <= xs.len(),
            best == window_highest_spec(xs@, start as int, k as nat),
        decreases count - k,
    {
        best = larger(best, xs[start + k]);
        k += 1;
    }
    best
}

/// Scans the `count` entries of `xs` from index `start` on for the least.
pub fn window_lowest<T: Scalar>(xs: &[T], start: usize, count: usize) -> (r: T)
    requires
        count >= 1,
        start + count <= xs.len(),
    ensures
        r == window_lowest_spec(xs@, start as int, count as nat),
{
    let mut best = xs[start];
    let mut k: usize = 1;
    while k < count
        invariant
            1 <= k <= count,
            start + count <= xs.len(),
            best == window_lowest_spec(xs@, start as int, k as nat),
        decreases count - k,
    {
        best = smaller(best, xs[start + k]);
        k += 1;
    }
    best
}

/// Accumulates the four sums of a least-squares line over the `count`
/// entries of `xs` from index `start` on.
pub fn regression_sums<T: Scalar>(xs: &[T], start: usize, count: usize) -> (r: (T, T, T, T))
    requires
        start + count <= xs.len(),
    ensures
        r == regression_sums_spec(xs@, start as int, count as nat),
{
    let zero = T::from_count(0);
    let mut sum_x = zero;
    let mut sum_xx = zero;
    let mut sum_y = zero;
    let mut sum_xy = zero;
    let mut k: usize = 0;
    while k < count
        invariant
            k <= count,
            start + count <= xs.len(),
            (sum_x, sum_xx, sum_y, sum_xy) == regression_sums_spec(xs@, start as int, k as nat),
        decreases count - k,
    {
        let position = T::from_count(k);
        let value = xs[start + k];
        sum_x = sum_x.plus(position);
        sum_xx = sum_xx.plus(position.times(position));
        sum_y = sum_y.plus(value);
        sum_xy = sum_xy.plus(position.times(value));
        k += 1;
    }
    (sum_x, sum_xx, sum_y, sum_xy)
}

/// Fits the least-squares line through the `period` entries of `xs` from
/// index `start` on and returns its slope and intercept.
pub fn regression_line<T: Scalar>(xs: &[T], start: usize, period: usize) -> (r: (T, T))
    requires
        start + period <= xs.len(),
    ensures
        r == regression_line_spec(xs@, start as int, period),
{
    let sums = regression_sums(xs, start, period);
    let n = T::from_count(period);
    let slope = n.times(sums.3).minus(sums.0.times(sums.2)).over(
        n.times(sums.1).minus(sums.0.times(sums.0)),
    );
    let intercept = sums.2.minus(slope.times(sums.0)).over(n);
    (slope, intercept)
}

/// Builds a series of `len` entries that all hold `value`.
pub fn filled<T: Scalar>(len: usize, value: T) -> (v: Vec<T>)
    ensures
        v@ == Seq::new(len as nat, |i: int| value),
{
    let mut v: Vec<T> = Vec::new();
    while v.len() < len
        invariant
            v.len() <= len,
            forall|j: int| 0 <= j < v.len() ==> v@[j] == value,
        decreases len - v.len(),
    {
        v.push(value);
    }
    v
}

} // verus!
