//! Midpoint price: the mean of the highest high and the lowest low of the
//! last `period` bars.
//!
//! The whole-series form scans the window at every index. The step form
//! keeps only the two extremes: it widens them by the newest bar and never
//! narrows them, so it agrees with the scan as long as the bar that leaves
//! the window did not hold an extreme on its own.

use crate::error::KandError;
use crate::kernels::{
    filled, larger, larger_spec, smaller, smaller_spec, window_highest, window_highest_spec,
    window_lowest, window_lowest_spec,
};
use crate::scalar::Scalar;
use crate::validation::{check_enough_data, check_period, check_same_length};
use vstd::prelude::*;

verus! {

/// The least period that the indicator accepts.
pub const MIN_PERIOD: usize = 2;

/// The number of leading indices without a value, for an accepted period.
pub open spec fn warmup_length_spec(period: usize) -> usize {
    (period - 1) as usize
}

/// The verdict on a period alone: what the step form checks.
pub open spec fn period_verdict(period: usize) -> Result<(), KandError> {
    crate::validation::period_verdict(period, MIN_PERIOD)
}

/// The verdict on the period and sizes handed to [`midprice`].
pub open spec fn verdict(
    high_len: usize,
    low_len: usize,
    period: usize,
    midprice_len: usize,
    highest_len: usize,
    lowest_len: usize,
) -> Result<(), KandError> {
    if period < MIN_PERIOD {
        Err(KandError::InvalidPeriod)
    } else if low_len != high_len || midprice_len != high_len || highest_len != high_len
        || lowest_len != high_len {
        Err(KandError::LengthMismatch)
    } else if high_len <= warmup_length_spec(period) {
        Err(KandError::InsufficientData)
    } else {
        Ok(())
    }
}

/// The mean of two extremes.
pub open spec fn midpoint_spec<T: Scalar>(highest: T, lowest: T) -> T {
    highest.plus(lowest).over(T::from_count_spec(2))
}

/// The highest high of the `period` bars that end at index `i`.
pub open spec fn highest_at<T: Scalar>(high: Seq<T>, period: usize, i: int) -> T {
    window_highest_spec(high, i - period + 1, period as nat)
}

/// The lowest low of the `period` bars that end at index `i`.
pub open spec fn lowest_at<T: Scalar>(low: Seq<T>, period: usize, i: int) -> T {
    window_lowest_spec(low, i - period + 1, period as nat)
}

/// The midpoint price at index `i`, which is at least `period - 1`.
pub open spec fn midprice_at<T: Scalar>(high: Seq<T>, low: Seq<T>, period: usize, i: int) -> T {
    midpoint_spec(highest_at(high, period, i), lowest_at(low, period, i))
}

/// The series of highest highs: no value before index `period - 1`.
pub open spec fn highest_series<T: Scalar>(high: Seq<T>, period: usize) -> Seq<T> {
    Seq::new(
        high.len(),
        |i: int|
            if i < warmup_length_spec(period) {
                T::undefined_spec()
            } else {
                highest_at(high, period, i)
            },
    )
}

/// The series of lowest lows: no value before index `period - 1`.
pub open spec fn lowest_series<T: Scalar>(low: Seq<T>, period: usize) -> Seq<T> {
    Seq::new(
        low.len(),
        |i: int|
            if i < warmup_length_spec(period) {
                T::undefined_spec()
            } else {
                lowest_at(low, period, i)
            },
    )
}

/// The series of midpoint prices: no value before index `period - 1`.
pub open spec fn midprice_series<T: Scalar>(high: Seq<T>, low: Seq<T>, period: usize) -> Seq<T> {
    Seq::new(
        high.len(),
        |i: int|
            if i < warmup_length_spec(period) {
                T::undefined_spec()
            } else {
                midprice_at(high, low, period, i)
            },
    )
}

/// What one step yields from the newest bar and the extremes carried so
/// far: the midpoint price, the new highest high and the new lowest low.
pub open spec fn step_spec<T: Scalar>(high: T, low: T, prev_highest: T, prev_lowest: T) -> (
    T,
    T,
    T,
) {
    let highest = larger_spec(prev_highest, high);
    let lowest = smaller_spec(prev_lowest, low);
    (midpoint_spec(highest, lowest), highest, lowest)
}

/// The number of leading indices without a value.
pub fn warmup_length(period: usize) -> (r: Result<usize, KandError>)
    ensures
        r == match period_verdict(period) {
            Ok(_) => Ok::<usize, KandError>(warmup_length_spec(period)),
            Err(e) => Err(e),
        },
{
    check_period(period, MIN_PERIOD)?;
    Ok(period - 1)
}

/// Judges the period and sizes of a call of [`midprice`] without touching
/// any series.
pub fn validate(
    high_len: usize,
    low_len: usize,
    period: usize,
    midprice_len: usize,
    highest_len: usize,
    lowest_len: usize,
) -> (r: Result<(), KandError>)
    ensures
        r == verdict(high_len, low_len, period, midprice_len, highest_len, lowest_len),
{
    check_period(period, MIN_PERIOD)?;
    check_same_length(high_len, low_len)?;
    check_same_length(high_len, midprice_len)?;
    check_same_length(high_len, highest_len)?;
    check_same_length(high_len, lowest_len)?;
    check_enough_data(high_len, period - 1)
}

/// Computes the midpoint price of the newest bar from the extremes carried
/// so far, and the extremes to carry on.
pub fn midprice_inc<T: Scalar>(
    high: T,
    low: T,
    prev_highest: T,
    prev_lowest: T,
    period: usize,
) -> (r: Result<(T, T, T), KandError>)
    ensures
        r == match period_verdict(period) {
            Ok(_) => Ok::<(T, T, T), KandError>(step_spec(high, low, prev_highest, prev_lowest)),
            Err(e) => Err(e),
        },
{
    check_period(period, MIN_PERIOD)?;
    let highest = larger(prev_highest, high);
    let lowest = smaller(prev_lowest, low);
    let mid = highest.plus(lowest).over(T::from_count(2));
    Ok((mid, highest, lowest))
}

/// Fills the three outputs with the midpoint price, the highest high and
/// the lowest low of the `period` bars that end at each index.
///
/// On success the first `period - 1` entries of every output hold the
/// marker for "no value". A rejected call leaves the outputs as they were.
pub fn midprice<T: Scalar>(
    high: &[T],
    low: &[T],
    period: usize,
    output_midprice: &mut [T],
    output_highest: &mut [T],
    output_lowest: &mut [T],
) -> (r: Result<(), KandError>)
    ensures
        r == verdict(
            high.len(),
            low.len(),
            period,
            old(output_midprice).len(),
            old(output_highest).len(),
            old(output_lowest).len(),
        ),
        period_verdict(period) is Err ==> r == Err::<(), KandError>(KandError::InvalidPeriod),
        r.is_ok() ==> {
            &&& final(output_midprice)@.len() == high@.len()
            &&& final(output_highest)@.len() == high@.len()
            &&& final(output_lowest)@.len() == high@.len()
            &&& final(output_midprice)@ == midprice_series(high@, low@, period)
            &&& final(output_highest)@ == highest_series(high@, period)
            &&& final(output_lowest)@ == lowest_series(low@, period)
        },
        r.is_err() ==> {
            &&& final(output_midprice)@ == old(output_midprice)@
            &&& final(output_highest)@ == old(output_highest)@
            &&& final(output_lowest)@ == old(output_lowest)@
        },
{
    let len = high.len();
    validate(
        len,
        low.len(),
        period,
        output_midprice.len(),
        output_highest.len(),
        output_lowest.len(),
    )?;
    let warmup = period - 1;
    let undefined = T::undefined();
    let two = T::from_count(2);
    let mut i: usize = 0;
    while i < warmup
        invariant
            i <= warmup < len,
            warmup == period - 1,
            len == high.len(),
            len == output_midprice.len(),
            len == output_highest.len(),
            len == output_lowest.len(),
            undefined == T::undefined_spec(),
            forall|j: int| 0 <= j < i ==> output_midprice@[j] == T::undefined_spec(),
            forall|j: int| 0 <= j < i ==> output_highest@[j] == T::undefined_spec(),
            forall|j: int| 0 <= j < i ==> output_lowest@[j] == T::undefined_spec(),
        decreases warmup - i,
    {
        output_midprice[i] = undefined;
        output_highest[i] = undefined;
        output_lowest[i] = undefined;
        i += 1;
    }
    while i < len
        invariant
            warmup <= i <= len,
            warmup == period - 1,
            period >= MIN_PERIOD,
            len == high.len(),
            len == low.len(),
            len == output_midprice.len(),
            len == output_highest.len(),
            len == output_lowest.len(),
            two == T::from_count_spec(2),
            forall|j: int|
                0 <= j < i ==> output_midprice@[j] == midprice_series(high@, low@, period)[j],
            forall|j: int| 0 <= j < i ==> output_highest@[j] == highest_series(high@, period)[j],
            forall|j: int| 0 <= j < i ==> output_lowest@[j] == lowest_series(low@, period)[j],
        decreases len - i,
    {
        let start = i - warmup;
        let highest = window_highest(high, start, period);
        let lowest = window_lowest(low, start, period);
        output_midprice[i] = highest.plus(lowest).over(two);
        output_highest[i] = highest;
        output_lowest[i] = lowest;
        i += 1;
    }
    Ok(())
}

/// Computes the midpoint price, the highest high and the lowest low into
/// three new series.
pub fn midprice_to_vec<T: Scalar>(high: &[T], low: &[T], period: usize) -> (r: Result<
    (Vec<T>, Vec<T>, Vec<T>),
    KandError,
>)
    ensures
        match r {
            Ok(outputs) => {
                &&& verdict(high.len(), low.len(), period, high.len(), high.len(), high.len()) is Ok
                &&& outputs.0@ == midprice_series(high@, low@, period)
                &&& outputs.1@ == highest_series(high@, period)
                &&& outputs.2@ == lowest_series(low@, period)
            },
            Err(e) => verdict(high.len(), low.len(), period, high.len(), high.len(), high.len())
                == Err::<(), KandError>(e),
        },
{
    let len = high.len();
    let mut output_midprice = filled(len, T::undefined());
    let mut output_highest = filled(len, T::undefined());
    let mut output_lowest = filled(len, T::undefined());
    midprice(
        high,
        low,
        period,
        output_midprice.as_mut_slice(),
        output_highest.as_mut_slice(),
        output_lowest.as_mut_slice(),
    )?;
    Ok((output_midprice, output_highest, output_lowest))
}

/// Every output series is as long as its input, holds the marker for "no
/// value" before index `period - 1` and the values of the indicator from
/// there on.
pub proof fn lemma_series_shape<T: Scalar>(high: Seq<T>, low: Seq<T>, period: usize, i: int)
    requires
        period >= MIN_PERIOD,
        low.len() == high.len(),
        0 <= i < high.len(),
    ensures
        midprice_series(high, low, period).len() == high.len(),
        highest_series(high, period).len() == high.len(),
        lowest_series(low, period).len() == high.len(),
        i < warmup_length_spec(period) ==> {
            &&& midprice_series(high, low, period)[i] == T::undefined_spec()
            &&& highest_series(high, period)[i] == T::undefined_spec()
            &&& lowest_series(low, period)[i] == T::undefined_spec()
        },
        i >= warmup_length_spec(period) ==> {
            &&& midprice_series(high, low, period)[i] == midprice_at(high, low, period, i)
            &&& highest_series(high, period)[i] == highest_at(high, period, i)
            &&& lowest_series(low, period)[i] == lowest_at(low, period, i)
        },
{
}

/// Whether the bar that leaves the window on the way to index `j` held no
/// extreme on its own: the window without it has the same highest high and
/// the same lowest low as the window with it.
pub open spec fn extremes_stay_at<T: Scalar>(high: Seq<T>, low: Seq<T>, period: usize, j: int)
    -> bool {
    &&& window_highest_spec(high, j - period + 1, (period - 1) as nat) == highest_at(
        high,
        period,
        j - 1,
    )
    &&& window_lowest_spec(low, j - period + 1, (period - 1) as nat) == lowest_at(
        low,
        period,
        j - 1,
    )
}

/// The step form reproduces the whole-series form at every index past the
/// first value, provided that the bar which leaves the window held no
/// extreme on its own: the window without it has the same highest high and
/// the same lowest low as the window with it.
///
/// Fed with the bar at `i` and the extremes that the series holds at
/// `i - 1`, a step returns what the series holds at `i`.
pub proof fn lemma_step_matches_series<T: Scalar>(
    high: Seq<T>,
    low: Seq<T>,
    period: usize,
    i: int,
)
    requires
        period >= MIN_PERIOD,
        low.len() == high.len(),
        warmup_length_spec(period) < i < high.len(),
        extremes_stay_at(high, low, period, i),
    ensures
        step_spec(
            high[i],
            low[i],
            highest_series(high, period)[i - 1],
            lowest_series(low, period)[i - 1],
        ) == (
            midprice_series(high, low, period)[i],
            highest_series(high, period)[i],
            lowest_series(low, period)[i],
        ),
{
    lemma_series_shape(high, low, period, i);
    lemma_series_shape(high, low, period, i - 1);
}

/// What the step form holds at index `i` when it is seeded at the warm-up
/// length with the values of the whole-series form and then fed the bars
/// after that one at a time, each step taking the extremes that the step
/// before it returned.
pub open spec fn stepped_at<T: Scalar>(high: Seq<T>, low: Seq<T>, period: usize, i: int) -> (
    T,
    T,
    T,
)
    decreases i - warmup_length_spec(period),
{
    if i <= warmup_length_spec(period) {
        let first = warmup_length_spec(period) as int;
        (
            midprice_at(high, low, period, first),
            highest_at(high, period, first),
            lowest_at(low, period, first),
        )
    } else {
        let carried = stepped_at(high, low, period, i - 1);
        step_spec(high[i], low[i], carried.1, carried.2)
    }
}

/// Whether no bar that leaves the window on the way from the warm-up
/// length to index `i` held an extreme on its own.
pub open spec fn extremes_stay<T: Scalar>(high: Seq<T>, low: Seq<T>, period: usize, i: int)
    -> bool {
    forall|j: int|
        warmup_length_spec(period) < j <= i ==> #[trigger] extremes_stay_at(high, low, period, j)
}

/// Seeded at the warm-up length and fed one bar at a time, the step form
/// reproduces the whole-series form up to index `i`, provided that no bar
/// that left the window on the way held an extreme on its own.
pub proof fn lemma_steps_reproduce_series<T: Scalar>(
    high: Seq<T>,
    low: Seq<T>,
    period: usize,
    i: int,
)
    requires
        period_verdict(period) is Ok,
        low.len() == high.len(),
        warmup_length_spec(period) <= i < high.len(),
        extremes_stay(high, low, period, i),
    ensures
        stepped_at(high, low, period, i) == (
            midprice_series(high, low, period)[i],
            highest_series(high, period)[i],
            lowest_series(low, period)[i],
        ),
    decreases i,
{
    lemma_series_shape(high, low, period, i);
    if i > warmup_length_spec(period) {
        assert(extremes_stay_at(high, low, period, i));
        lemma_steps_reproduce_series(high, low, period, i - 1);
        lemma_step_matches_series(high, low, period, i);
    }
}

/// Asking for the verdict twice gives it twice: whatever two calls of
/// [`validate`] with the same period and sizes return, the two results are
/// equal.
pub proof fn lemma_validate_repeats(
    high_len: usize,
    low_len: usize,
    period: usize,
    midprice_len: usize,
    highest_len: usize,
    lowest_len: usize,
    first: Result<(), KandError>,
    second: Result<(), KandError>,
)
    requires
        call_ensures(
            validate,
            (high_len, low_len, period, midprice_len, highest_len, lowest_len),
            first,
        ),
        call_ensures(
            validate,
            (high_len, low_len, period, midprice_len, highest_len, lowest_len),
            second,
        ),
    ensures
        first == second,
{
}

} // verus!
