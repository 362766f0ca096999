//! Directional movement index.
//!
//! From each pair of consecutive bars come an upward movement, a downward
//! movement and a true range. Each is Wilder-smoothed over `period` bars,
//! and the index is `100 * |plus - minus| / (plus + minus)` of the two
//! smoothed movements, or zero where their sum is zero. The three smoothed
//! values are part of the output, because they are the state that the step
//! form carries.

use crate::error::KandError;
use crate::kernels::{
    filled, larger, larger_spec, magnitude, magnitude_spec, wilder_at, wilder_step,
    wilder_step_spec, window_sum_spec, zero_spec,
};
use crate::scalar::Scalar;
use crate::validation::{check_enough_data, check_period, check_same_length};
use vstd::prelude::*;

verus! {

/// The verdict on a period alone: what the step form checks. Any period
/// but zero is accepted.
pub open spec fn period_verdict(period: usize) -> Result<(), KandError> {
    crate::validation::period_verdict(period, 1)
}

/// The number of leading indices without a value: the first value needs
/// `period` movements, so it stands at index `period`.
pub open spec fn warmup_length_spec(period: usize) -> usize {
    period
}

/// The verdict on the period and sizes handed to [`dx`].
pub open spec fn verdict(
    high_len: usize,
    low_len: usize,
    close_len: usize,
    period: usize,
    dx_len: usize,
    smoothed_plus_dm_len: usize,
    smoothed_minus_dm_len: usize,
    smoothed_tr_len: usize,
) -> Result<(), KandError> {
    if period == 0 {
        Err(KandError::InvalidPeriod)
    } else if low_len != high_len || close_len != high_len || dx_len != high_len
        || smoothed_plus_dm_len != high_len || smoothed_minus_dm_len != high_len
        || smoothed_tr_len != high_len {
        Err(KandError::LengthMismatch)
    } else if high_len <= warmup_length_spec(period) {
        Err(KandError::InsufficientData)
    } else {
        Ok(())
    }
}

/// The upward movement between two bars: the rise of the high, where it is
/// positive and exceeds the fall of the low; zero otherwise.
pub open spec fn plus_dm_spec<T: Scalar>(high: T, prev_high: T, low: T, prev_low: T) -> T {
    let up = high.minus(prev_high);
    let down = prev_low.minus(low);
    if down.below(up) && zero_spec::<T>().below(up) {
        up
    } else {
        zero_spec()
    }
}

/// The downward movement between two bars: the fall of the low, where it is
/// positive and exceeds the rise of the high; zero otherwise.
pub open spec fn minus_dm_spec<T: Scalar>(high: T, prev_high: T, low: T, prev_low: T) -> T {
    let up = high.minus(prev_high);
    let down = prev_low.minus(low);
    if up.below(down) && zero_spec::<T>().below(down) {
        down
    } else {
        zero_spec()
    }
}

/// The true range of a bar: the greatest of its own range and the distances
/// of its high and its low from the previous close.
pub open spec fn true_range_spec<T: Scalar>(high: T, low: T, prev_close: T) -> T {
    larger_spec(
        larger_spec(high.minus(low), magnitude_spec(high.minus(prev_close))),
        magnitude_spec(low.minus(prev_close)),
    )
}

/// The index of two smoothed movements.
pub open spec fn dx_value_spec<T: Scalar>(smoothed_plus_dm: T, smoothed_minus_dm: T) -> T {
    let sum = smoothed_plus_dm.plus(smoothed_minus_dm);
    if sum.same(zero_spec()) {
        zero_spec()
    } else {
        let distance = magnitude_spec(smoothed_plus_dm.minus(smoothed_minus_dm));
        T::from_count_spec(100).times(distance).over(sum)
    }
}

/// The upward movement into every bar but the first, whose entry is zero.
pub open spec fn plus_dm_values<T: Scalar>(high: Seq<T>, low: Seq<T>) -> Seq<T> {
    Seq::new(
        high.len(),
        |i: int|
            if i == 0 {
                zero_spec()
            } else {
                plus_dm_spec(high[i], high[i - 1], low[i], low[i - 1])
            },
    )
}

/// The downward movement into every bar but the first, whose entry is zero.
pub open spec fn minus_dm_values<T: Scalar>(high: Seq<T>, low: Seq<T>) -> Seq<T> {
    Seq::new(
        high.len(),
        |i: int|
            if i == 0 {
                zero_spec()
            } else {
                minus_dm_spec(high[i], high[i - 1], low[i], low[i - 1])
            },
    )
}

/// The true range of every bar but the first, whose entry is zero.
pub open spec fn true_range_values<T: Scalar>(high: Seq<T>, low: Seq<T>, close: Seq<T>) -> Seq<T> {
    Seq::new(
        high.len(),
        |i: int|
            if i == 0 {
                zero_spec()
            } else {
                true_range_spec(high[i], low[i], close[i - 1])
            },
    )
}

/// The four values of the indicator at an index past the warm-up: index,
/// smoothed upward movement, smoothed downward movement, smoothed true
/// range. Each smoothed value is seeded at index `period` with the sum of
/// the `period` raw values up to there.
pub open spec fn values_at<T: Scalar>(
    high: Seq<T>,
    low: Seq<T>,
    close: Seq<T>,
    period: usize,
    i: int,
) -> (T, T, T, T) {
    let plus = wilder_at(plus_dm_values(high, low), 1, period, i);
    let minus = wilder_at(minus_dm_values(high, low), 1, period, i);
    let range = wilder_at(true_range_values(high, low, close), 1, period, i);
    (dx_value_spec(plus, minus), plus, minus, range)
}

/// The four output series: no value before index `period`, then
/// [`values_at`].
pub open spec fn series<T: Scalar>(high: Seq<T>, low: Seq<T>, close: Seq<T>, period: usize) -> (
    Seq<T>,
    Seq<T>,
    Seq<T>,
    Seq<T>,
) {
    (
        Seq::new(
            high.len(),
            |i: int|
                if i < warmup_length_spec(period) {
                    T::undefined_spec()
                } else {
                    values_at(high, low, close, period, i).0
                },
        ),
        Seq::new(
            high.len(),
            |i: int|
                if i < warmup_length_spec(period) {
                    T::undefined_spec()
                } else {
                    values_at(high, low, close, period, i).1
                },
        ),
        Seq::new(
            high.len(),
            |i: int|
                if i < warmup_length_spec(period) {
                    T::undefined_spec()
                } else {
                    values_at(high, low, close, period, i).2
                },
        ),
        Seq::new(
            high.len(),
            |i: int|
                if i < warmup_length_spec(period) {
                    T::undefined_spec()
                } else {
                    values_at(high, low, close, period, i).3
                },
        ),
    )
}

/// What one step yields from the newest bar, the bar before it and the
/// state carried so far: the index and the three smoothed values to carry
/// on.
pub open spec fn step_spec<T: Scalar>(
    high: T,
    low: T,
    prev_high: T,
    prev_low: T,
    prev_close: T,
    prev_smoothed_plus_dm: T,
    prev_smoothed_minus_dm: T,
    prev_smoothed_tr: T,
    period: usize,
) -> (T, T, T, T) {
    let plus = wilder_step_spec(
        plus_dm_spec(high, prev_high, low, prev_low),
        prev_smoothed_plus_dm,
        period,
    );
    let minus = wilder_step_spec(
        minus_dm_spec(high, prev_high, low, prev_low),
        prev_smoothed_minus_dm,
        period,
    );
    let range = wilder_step_spec(true_range_spec(high, low, prev_close), prev_smoothed_tr, period);
    (dx_value_spec(plus, minus), plus, minus, range)
}

/// Computes the upward movement between two bars.
pub fn plus_dm<T: Scalar>(high: T, prev_high: T, low: T, prev_low: T) -> (r: T)
    ensures
        r == plus_dm_spec(high, prev_high, low, prev_low),
{
    let zero = T::from_count(0);
    let up = high.minus(prev_high);
    let down = prev_low.minus(low);
    if down.below(up) && zero.below(up) {
        up
    } else {
        zero
    }
}

/// Computes the downward movement between two bars.
pub fn minus_dm<T: Scalar>(high: T, prev_high: T, low: T, prev_low: T) -> (r: T)
    ensures
        r == minus_dm_spec(high, prev_high, low, prev_low),
{
    let zero = T::from_count(0);
    let up = high.minus(prev_high);
    let down = prev_low.minus(low);
    if up.below(down) && zero.below(down) {
        down
    } else {
        zero
    }
}

/// Computes the true range of a bar.
pub fn true_range<T: Scalar>(high: T, low: T, prev_close: T) -> (r: T)
    ensures
        r == true_range_spec(high, low, prev_close),
{
    larger(
        larger(high.minus(low), magnitude(high.minus(prev_close))),
        magnitude(low.minus(prev_close)),
    )
}

/// Computes the index of two smoothed movements.
pub fn dx_value<T: Scalar>(smoothed_plus_dm: T, smoothed_minus_dm: T) -> (r: T)
    ensures
        r == dx_value_spec(smoothed_plus_dm, smoothed_minus_dm),
{
    let zero = T::from_count(0);
    let sum = smoothed_plus_dm.plus(smoothed_minus_dm);
    if sum.same(zero) {
        zero
    } else {
        T::from_count(100).times(magnitude(smoothed_plus_dm.minus(smoothed_minus_dm))).over(sum)
    }
}

/// The number of leading indices without a value.
pub fn warmup_length(period: usize) -> (r: Result<usize, KandError>)
    ensures
        r == match period_verdict(period) {
            Ok(_) => Ok::<usize, KandError>(warmup_length_spec(period)),
            Err(e) => Err(e),
        },
{
    check_period(period, 1)?;
    Ok(period)
}

/// Judges the period and sizes of a call of [`dx`] without touching any
/// series.
pub fn validate(
    high_len: usize,
    low_len: usize,
    close_len: usize,
    period: usize,
    dx_len: usize,
    smoothed_plus_dm_len: usize,
    smoothed_minus_dm_len: usize,
    smoothed_tr_len: usize,
) -> (r: Result<(), KandError>)
    ensures
        r == verdict(
            high_len,
            low_len,
            close_len,
            period,
            dx_len,
            smoothed_plus_dm_len,
            smoothed_minus_dm_len,
            smoothed_tr_len,
        ),
{
    check_period(period, 1)?;
    check_same_length(high_len, low_len)?;
    check_same_length(high_len, close_len)?;
    check_same_length(high_len, dx_len)?;
    check_same_length(high_len, smoothed_plus_dm_len)?;
    check_same_length(high_len, smoothed_minus_dm_len)?;
    check_same_length(high_len, smoothed_tr_len)?;
    check_enough_data(high_len, period)
}

/// Advances the indicator by one bar: returns the index and the smoothed
/// upward movement, downward movement and true range.
pub fn dx_incremental<T: Scalar>(
    high: T,
    low: T,
    prev_high: T,
    prev_low: T,
    prev_close: T,
    prev_smoothed_plus_dm: T,
    prev_smoothed_minus_dm: T,
    prev_smoothed_tr: T,
    period: usize,
) -> (r: Result<(T, T, T, T), KandError>)
    ensures
        r == match period_verdict(period) {
            Ok(_) => Ok::<(T, T, T, T), KandError>(
                step_spec(
                    high,
                    low,
                    prev_high,
                    prev_low,
                    prev_close,
                    prev_smoothed_plus_dm,
                    prev_smoothed_minus_dm,
                    prev_smoothed_tr,
                    period,
                ),
            ),
            Err(e) => Err(e),
        },
{
    check_period(period, 1)?;
    let plus = wilder_step(plus_dm(high, prev_high, low, prev_low), prev_smoothed_plus_dm, period);
    let minus = wilder_step(
        minus_dm(high, prev_high, low, prev_low),
        prev_smoothed_minus_dm,
        period,
    );
    let range = wilder_step(true_range(high, low, prev_close), prev_smoothed_tr, period);
    Ok((dx_value(plus, minus), plus, minus, range))
}

/// Fills the four outputs with the index and the smoothed upward movement,
/// downward movement and true range.
///
/// On success the first `period` entries of every output hold the marker
/// for "no value". A rejected call leaves the outputs as they were.
pub fn dx<T: Scalar>(
    high: &[T],
    low: &[T],
    close: &[T],
    period: usize,
    output_dx: &mut [T],
    output_smoothed_plus_dm: &mut [T],
    output_smoothed_minus_dm: &mut [T],
    output_smoothed_tr: &mut [T],
) -> (r: Result<(), KandError>)
    ensures
        r == verdict(
            high.len(),
            low.len(),
            close.len(),
            period,
            old(output_dx).len(),
            old(output_smoothed_plus_dm).len(),
            old(output_smoothed_minus_dm).len(),
            old(output_smoothed_tr).len(),
        ),
        period_verdict(period) is Err ==> r == Err::<(), KandError>(KandError::InvalidPeriod),
        r.is_ok() ==> {
            let expected = series(high@, low@, close@, period);
            &&& final(output_dx)@.len() == high@.len()
            &&& final(output_smoothed_plus_dm)@.len() == high@.len()
            &&& final(output_smoothed_minus_dm)@.len() == high@.len()
            &&& final(output_smoothed_tr)@.len() == high@.len()
            &&& final(output_dx)@ == expected.0
            &&& final(output_smoothed_plus_dm)@ == expected.1
            &&& final(output_smoothed_minus_dm)@ == expected.2
            &&& final(output_smoothed_tr)@ == expected.3
        },
        r.is_err() ==> {
            &&& final(output_dx)@ == old(output_dx)@
            &&& final(output_smoothed_plus_dm)@ == old(output_smoothed_plus_dm)@
            &&& final(output_smoothed_minus_dm)@ == old(output_smoothed_minus_dm)@
            &&& final(output_smoothed_tr)@ == old(output_smoothed_tr)@
        },
{
    let len = high.len();
    validate(
        len,
        low.len(),
        close.len(),
        period,
        output_dx.len(),
        output_smoothed_plus_dm.len(),
        output_smoothed_minus_dm.len(),
        output_smoothed_tr.len(),
    )?;
    let undefined = T::undefined();
    let mut i: usize = 0;
    while i < period
        invariant
            i <= period < len,
            len == output_dx.len(),
            len == output_smoothed_plus_dm.len(),
            len == output_smoothed_minus_dm.len(),
            len == output_smoothed_tr.len(),
            undefined == T::undefined_spec(),
            forall|j: int| 0 <= j < i ==> output_dx@[j] == T::undefined_spec(),
            forall|j: int| 0 <= j < i ==> output_smoothed_plus_dm@[j] == T::undefined_spec(),
            forall|j: int| 0 <= j < i ==> output_smoothed_minus_dm@[j] == T::undefined_spec(),
            forall|j: int| 0 <= j < i ==> output_smoothed_tr@[j] == T::undefined_spec(),
        decreases period - i,
    {
        output_dx[i] = undefined;
        output_smoothed_plus_dm[i] = undefined;
        output_smoothed_minus_dm[i] = undefined;
        output_smoothed_tr[i] = undefined;
        i += 1;
    }
    let ghost plus_values = plus_dm_values(high@, low@);
    let ghost minus_values = minus_dm_values(high@, low@);
    let ghost range_values = true_range_values(high@, low@, close@);
    // Each smoothed value is seeded with the sum of its first `period` raw
    // values.
    let mut plus = T::from_count(0);
    let mut minus = plus;
    let mut range = plus;
    let mut k: usize = 0;
    while k < period
        invariant
            k <= period < len,
            len == high.len(),
            len == low.len(),
            len == close.len(),
            plus_values == plus_dm_values(high@, low@),
            minus_values == minus_dm_values(high@, low@),
            range_values == true_range_values(high@, low@, close@),
            plus == window_sum_spec(plus_values, 1, k as nat),
            minus == window_sum_spec(minus_values, 1, k as nat),
            range == window_sum_spec(range_values, 1, k as nat),
        decreases period - k,
    {
        k += 1;
        plus = plus.plus(plus_dm(high[k], high[k - 1], low[k], low[k - 1]));
        minus = minus.plus(minus_dm(high[k], high[k - 1], low[k], low[k - 1]));
        range = range.plus(true_range(high[k], low[k], close[k - 1]));
    }
    output_dx[k] = dx_value(plus, minus);
    output_smoothed_plus_dm[k] = plus;
    output_smoothed_minus_dm[k] = minus;
    output_smoothed_tr[k] = range;
    while k + 1 < len
        invariant
            1 <= period <= k < len,
            len == high.len(),
            len == low.len(),
            len == close.len(),
            len == output_dx.len(),
            len == output_smoothed_plus_dm.len(),
            len == output_smoothed_minus_dm.len(),
            len == output_smoothed_tr.len(),
            plus_values == plus_dm_values(high@, low@),
            minus_values == minus_dm_values(high@, low@),
            range_values == true_range_values(high@, low@, close@),
            plus == wilder_at(plus_values, 1, period, k as int),
            minus == wilder_at(minus_values, 1, period, k as int),
            range == wilder_at(range_values, 1, period, k as int),
            forall|j: int| 0 <= j < period ==> output_dx@[j] == T::undefined_spec(),
            forall|j: int| 0 <= j < period ==> output_smoothed_plus_dm@[j] == T::undefined_spec(),
            forall|j: int| 0 <= j < period ==> output_smoothed_minus_dm@[j] == T::undefined_spec(),
            forall|j: int| 0 <= j < period ==> output_smoothed_tr@[j] == T::undefined_spec(),
            forall|j: int|
                period <= j <= k ==> output_dx@[j] == values_at(high@, low@, close@, period, j).0,
            forall|j: int|
                period <= j <= k ==> output_smoothed_plus_dm@[j] == values_at(
                    high@,
                    low@,
                    close@,
                    period,
                    j,
                ).1,
            forall|j: int|
                period <= j <= k ==> output_smoothed_minus_dm@[j] == values_at(
                    high@,
                    low@,
                    close@,
                    period,
                    j,
                ).2,
            forall|j: int|
                period <= j <= k ==> output_smoothed_tr@[j] == values_at(
                    high@,
                    low@,
                    close@,
                    period,
                    j,
                ).3,
        decreases len - k,
    {
        k += 1;
        plus = wilder_step(plus_dm(high[k], high[k - 1], low[k], low[k - 1]), plus, period);
        minus = wilder_step(minus_dm(high[k], high[k - 1], low[k], low[k - 1]), minus, period);
        range = wilder_step(true_range(high[k], low[k], close[k - 1]), range, period);
        output_dx[k] = dx_value(plus, minus);
        output_smoothed_plus_dm[k] = plus;
        output_smoothed_minus_dm[k] = minus;
        output_smoothed_tr[k] = range;
    }
    Ok(())
}

/// Computes the index and the smoothed upward movement, downward movement
/// and true range into four new series.
pub fn dx_to_vec<T: Scalar>(high: &[T], low: &[T], close: &[T], period: usize) -> (r: Result<
    (Vec<T>, Vec<T>, Vec<T>, Vec<T>),
    KandError,
>)
    ensures
        ({
            let len = high.len();
            let judged = verdict(len, low.len(), close.len(), period, len, len, len, len);
            match r {
                Ok(outputs) => {
                    let expected = series(high@, low@, close@, period);
                    &&& judged is Ok
                    &&& outputs.0@ == expected.0
                    &&& outputs.1@ == expected.1
                    &&& outputs.2@ == expected.2
                    &&& outputs.3@ == expected.3
                },
                Err(e) => judged == Err::<(), KandError>(e),
            }
        }),
{
    let len = high.len();
    let mut output_dx = filled(len, T::undefined());
    let mut output_smoothed_plus_dm = filled(len, T::undefined());
    let mut output_smoothed_minus_dm = filled(len, T::undefined());
    let mut output_smoothed_tr = filled(len, T::undefined());
    dx(
        high,
        low,
        close,
        period,
        output_dx.as_mut_slice(),
        output_smoothed_plus_dm.as_mut_slice(),
        output_smoothed_minus_dm.as_mut_slice(),
        output_smoothed_tr.as_mut_slice(),
    )?;
    Ok((output_dx, output_smoothed_plus_dm, output_smoothed_minus_dm, output_smoothed_tr))
}

/// Every output series is as long as its input, holds the marker for "no
/// value" before index `period` and the values of the indicator from there
/// on.
pub proof fn lemma_series_shape<T: Scalar>(
    high: Seq<T>,
    low: Seq<T>,
    close: Seq<T>,
    period: usize,
    i: int,
)
    requires
        0 <= i < high.len(),
    ensures
        ({
            let s = series(high, low, close, period);
            let values = values_at(high, low, close, period, i);
            let none = T::undefined_spec();
            &&& s.0.len() == high.len()
            &&& s.1.len() == high.len()
            &&& s.2.len() == high.len()
            &&& s.3.len() == high.len()
            &&& i < warmup_length_spec(period) ==> (s.0[i], s.1[i], s.2[i], s.3[i]) == (
                none,
                none,
                none,
                none,
            )
            &&& i >= warmup_length_spec(period) ==> (s.0[i], s.1[i], s.2[i], s.3[i]) == values
        }),
{
}

/// The step form reproduces the whole-series form at every index past the
/// first value: fed with the bars at `i` and `i - 1` and the three smoothed
/// values that the series hold at `i - 1`, a step returns what the series
/// hold at `i`.
pub proof fn lemma_step_matches_series<T: Scalar>(
    high: Seq<T>,
    low: Seq<T>,
    close: Seq<T>,
    period: usize,
    i: int,
)
    requires
        period_verdict(period) is Ok,
        low.len() == high.len(),
        close.len() == high.len(),
        warmup_length_spec(period) < i < high.len(),
    ensures
        ({
            let s = series(high, low, close, period);
            step_spec(
                high[i],
                low[i],
                high[i - 1],
                low[i - 1],
                close[i - 1],
                s.1[i - 1],
                s.2[i - 1],
                s.3[i - 1],
                period,
            ) == (s.0[i], s.1[i], s.2[i], s.3[i])
        }),
{
    lemma_series_shape(high, low, close, period, i);
    lemma_series_shape(high, low, close, period, i - 1);
    assert(minus_dm_values(high, low)[i] == minus_dm_spec(
        high[i],
        high[i - 1],
        low[i],
        low[i - 1],
    ));
    assert(true_range_values(high, low, close)[i] == true_range_spec(
        high[i],
        low[i],
        close[i - 1],
    ));
}

/// What the step form holds at index `i` when it is seeded at the warm-up
/// length with the values of the whole-series form and then fed the bars
/// after that one at a time, each step taking the smoothed values that the
/// step before it returned.
pub open spec fn stepped_at<T: Scalar>(
    high: Seq<T>,
    low: Seq<T>,
    close: Seq<T>,
    period: usize,
    i: int,
) -> (T, T, T, T)
    decreases i - period,
{
    if i <= warmup_length_spec(period) {
        values_at(high, low, close, period, warmup_length_spec(period) as int)
    } else {
        let carried = stepped_at(high, low, close, period, i - 1);
        step_spec(
            high[i],
            low[i],
            high[i - 1],
            low[i - 1],
            close[i - 1],
            carried.1,
            carried.2,
            carried.3,
            period,
        )
    }
}

/// Seeded at the warm-up length and fed one bar at a time, the step form
/// reproduces the whole-series form at every index from there on.
pub proof fn lemma_steps_reproduce_series<T: Scalar>(
    high: Seq<T>,
    low: Seq<T>,
    close: Seq<T>,
    period: usize,
    i: int,
)
    requires
        period_verdict(period) is Ok,
        low.len() == high.len(),
        close.len() == high.len(),
        warmup_length_spec(period) <= i < high.len(),
    ensures
        ({
            let s = series(high, low, close, period);
            stepped_at(high, low, close, period, i) == (s.0[i], s.1[i], s.2[i], s.3[i])
        }),
    decreases i,
{
    lemma_series_shape(high, low, close, period, i);
    if i > warmup_length_spec(period) {
        lemma_steps_reproduce_series(high, low, close, period, i - 1);
        lemma_step_matches_series(high, low, close, period, i);
    }
}

/// Asking for the verdict twice gives it twice: whatever two calls of
/// [`validate`] with the same period and sizes return, the two results are
/// equal.
pub proof fn lemma_validate_repeats(
    high_len: usize,
    low_len: usize,
    close_len: usize,
    period: usize,
    dx_len: usize,
    smoothed_plus_dm_len: usize,
    smoothed_minus_dm_len: usize,
    smoothed_tr_len: usize,
    first: Result<(), KandError>,
    second: Result<(), KandError>,
)
    requires
        call_ensures(
            validate,
            (
                high_len,
                low_len,
                close_len,
                period,
                dx_len,
                smoothed_plus_dm_len,
                smoothed_minus_dm_len,
                smoothed_tr_len,
            ),
            first,
        ),
        call_ensures(
            validate,
            (
                high_len,
                low_len,
                close_len,
                period,
                dx_len,
                smoothed_plus_dm_len,
                smoothed_minus_dm_len,
                smoothed_tr_len,
            ),
            second,
        ),
    ensures
        first == second,
{
}

} // verus!
