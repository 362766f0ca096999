//! Moving average convergence/divergence.
//!
//! The line is the difference of a fast and a slow exponential moving
//! average of the price; the signal is an exponential moving average of the
//! line; the histogram is the line less the signal. The two averages of the
//! price are part of the output, because they are the state that the step
//! form carries.

use crate::error::KandError;
use crate::kernels::{
    ema_at, ema_step, ema_step_spec, filled, window_mean, window_sum_spec, zero_spec,
};
use crate::scalar::Scalar;
use crate::validation::{check_enough_data, check_period, check_same_length};
use vstd::prelude::*;

verus! {

/// The verdict on the three periods alone: what the step form checks. None
/// may be zero, and the fast period must be shorter than the slow one.
pub open spec fn periods_verdict(fast_period: usize, slow_period: usize, signal_period: usize)
    -> Result<(), KandError> {
    if fast_period == 0 || slow_period == 0 || signal_period == 0 || fast_period >= slow_period {
        Err(KandError::InvalidPeriod)
    } else {
        Ok(())
    }
}

/// The number of leading indices without a value, for accepted periods:
/// the slow average needs `slow_period - 1` of them, the signal
/// `signal_period - 1` more.
pub open spec fn warmup_length_spec(slow_period: usize, signal_period: usize) -> int {
    slow_period + signal_period - 2
}

/// The verdict on the periods and sizes handed to [`macd`].
pub open spec fn verdict(
    len: usize,
    fast_period: usize,
    slow_period: usize,
    signal_period: usize,
    macd_line_len: usize,
    signal_line_len: usize,
    histogram_len: usize,
    fast_ema_len: usize,
    slow_ema_len: usize,
) -> Result<(), KandError> {
    if periods_verdict(fast_period, slow_period, signal_period) is Err {
        Err(KandError::InvalidPeriod)
    } else if macd_line_len != len || signal_line_len != len || histogram_len != len
        || fast_ema_len != len || slow_ema_len != len {
        Err(KandError::LengthMismatch)
    } else if len <= warmup_length_spec(slow_period, signal_period) {
        Err(KandError::InsufficientData)
    } else {
        Ok(())
    }
}

/// The fast or slow average of the price at index `i`.
pub open spec fn price_ema_at<T: Scalar>(prices: Seq<T>, period: usize, i: int) -> T {
    ema_at(prices, 0, period, i)
}

/// The line at index `i`: the fast average less the slow one.
pub open spec fn line_at<T: Scalar>(prices: Seq<T>, fast_period: usize, slow_period: usize, i: int)
    -> T {
    price_ema_at(prices, fast_period, i).minus(price_ema_at(prices, slow_period, i))
}

/// The line at every index of the prices.
pub open spec fn line_values<T: Scalar>(prices: Seq<T>, fast_period: usize, slow_period: usize)
    -> Seq<T> {
    Seq::new(prices.len(), |i: int| line_at(prices, fast_period, slow_period, i))
}

/// The signal at index `i`: the exponential moving average of the line,
/// which starts where the slow average does.
pub open spec fn signal_at<T: Scalar>(
    prices: Seq<T>,
    fast_period: usize,
    slow_period: usize,
    signal_period: usize,
    i: int,
) -> T {
    ema_at(line_values(prices, fast_period, slow_period), slow_period - 1, signal_period, i)
}

/// The histogram at index `i`: the line less the signal.
pub open spec fn histogram_at<T: Scalar>(
    prices: Seq<T>,
    fast_period: usize,
    slow_period: usize,
    signal_period: usize,
    i: int,
) -> T {
    line_at(prices, fast_period, slow_period, i).minus(
        signal_at(prices, fast_period, slow_period, signal_period, i),
    )
}

/// The five values of the indicator at an index past the warm-up: line,
/// signal, histogram, fast average, slow average.
pub open spec fn values_at<T: Scalar>(
    prices: Seq<T>,
    fast_period: usize,
    slow_period: usize,
    signal_period: usize,
    i: int,
) -> (T, T, T, T, T) {
    (
        line_at(prices, fast_period, slow_period, i),
        signal_at(prices, fast_period, slow_period, signal_period, i),
        histogram_at(prices, fast_period, slow_period, signal_period, i),
        price_ema_at(prices, fast_period, i),
        price_ema_at(prices, slow_period, i),
    )
}

/// The five output series: no value before the warm-up length, then
/// [`values_at`].
pub open spec fn series<T: Scalar>(
    prices: Seq<T>,
    fast_period: usize,
    slow_period: usize,
    signal_period: usize,
) -> (Seq<T>, Seq<T>, Seq<T>, Seq<T>, Seq<T>) {
    let warmup = warmup_length_spec(slow_period, signal_period);
    (
        Seq::new(
            prices.len(),
            |i: int|
                if i < warmup {
                    T::undefined_spec()
                } else {
                    values_at(prices, fast_period, slow_period, signal_period, i).0
                },
        ),
        Seq::new(
            prices.len(),
            |i: int|
                if i < warmup {
                    T::undefined_spec()
                } else {
                    values_at(prices, fast_period, slow_period, signal_period, i).1
                },
        ),
        Seq::new(
            prices.len(),
            |i: int|
                if i < warmup {
                    T::undefined_spec()
                } else {
                    values_at(prices, fast_period, slow_period, signal_period, i).2
                },
        ),
        Seq::new(
            prices.len(),
            |i: int|
                if i < warmup {
                    T::undefined_spec()
                } else {
                    values_at(prices, fast_period, slow_period, signal_period, i).3
                },
        ),
        Seq::new(
            prices.len(),
            |i: int|
                if i < warmup {
                    T::undefined_spec()
                } else {
                    values_at(prices, fast_period, slow_period, signal_period, i).4
                },
        ),
    )
}

/// What one step yields from the newest price and the state carried so
/// far: line, signal, histogram, and the fast and slow averages to carry on
/// (the signal is carried on too).
pub open spec fn step_spec<T: Scalar>(
    price: T,
    prev_fast_ema: T,
    prev_slow_ema: T,
    prev_signal: T,
    fast_period: usize,
    slow_period: usize,
    signal_period: usize,
) -> (T, T, T, T, T) {
    let fast = ema_step_spec(price, prev_fast_ema, fast_period);
    let slow = ema_step_spec(price, prev_slow_ema, slow_period);
    let line = fast.minus(slow);
    let signal = ema_step_spec(line, prev_signal, signal_period);
    (line, signal, line.minus(signal), fast, slow)
}

/// Judges the three periods.
pub fn validate_periods(fast_period: usize, slow_period: usize, signal_period: usize) -> (r: Result<
    (),
    KandError,
>)
    ensures
        r == periods_verdict(fast_period, slow_period, signal_period),
{
    check_period(fast_period, 1)?;
    check_period(slow_period, 1)?;
    check_period(signal_period, 1)?;
    if fast_period >= slow_period {
        Err(KandError::InvalidPeriod)
    } else {
        Ok(())
    }
}

/// Judges the periods and sizes of a call of [`macd`] without touching any
/// series.
pub fn validate(
    len: usize,
    fast_period: usize,
    slow_period: usize,
    signal_period: usize,
    macd_line_len: usize,
    signal_line_len: usize,
    histogram_len: usize,
    fast_ema_len: usize,
    slow_ema_len: usize,
) -> (r: Result<(), KandError>)
    ensures
        r == verdict(
            len,
            fast_period,
            slow_period,
            signal_period,
            macd_line_len,
            signal_line_len,
            histogram_len,
            fast_ema_len,
            slow_ema_len,
        ),
{
    validate_periods(fast_period, slow_period, signal_period)?;
    check_same_length(len, macd_line_len)?;
    check_same_length(len, signal_line_len)?;
    check_same_length(len, histogram_len)?;
    check_same_length(len, fast_ema_len)?;
    check_same_length(len, slow_ema_len)?;
    // The warm-up length is `slow_period - 1 + (signal_period - 1)`; it is
    // compared in two parts so that no sum leaves the range of `usize`.
    check_enough_data(len, slow_period - 1)?;
    check_enough_data(len - (slow_period - 1), signal_period - 1)
}

/// The number of leading indices without a value.
pub fn warmup_length(fast_period: usize, slow_period: usize, signal_period: usize) -> (r: Result<
    usize,
    KandError,
>)
    requires
        warmup_length_spec(slow_period, signal_period) <= usize::MAX,
    ensures
        r == match periods_verdict(fast_period, slow_period, signal_period) {
            Ok(_) => Ok::<usize, KandError>(
                warmup_length_spec(slow_period, signal_period) as usize,
            ),
            Err(e) => Err(e),
        },
{
    validate_periods(fast_period, slow_period, signal_period)?;
    Ok(slow_period - 1 + (signal_period - 1))
}

/// Advances the indicator by one price: returns line, signal, histogram,
/// fast average and slow average.
pub fn macd_inc<T: Scalar>(
    price: T,
    prev_fast_ema: T,
    prev_slow_ema: T,
    prev_signal: T,
    fast_period: usize,
    slow_period: usize,
    signal_period: usize,
) -> (r: Result<(T, T, T, T, T), KandError>)
    ensures
        r == match periods_verdict(fast_period, slow_period, signal_period) {
            Ok(_) => Ok::<(T, T, T, T, T), KandError>(
                step_spec(
                    price,
                    prev_fast_ema,
                    prev_slow_ema,
                    prev_signal,
                    fast_period,
                    slow_period,
                    signal_period,
                ),
            ),
            Err(e) => Err(e),
        },
{
    validate_periods(fast_period, slow_period, signal_period)?;
    let fast = ema_step(price, prev_fast_ema, fast_period);
    let slow = ema_step(price, prev_slow_ema, slow_period);
    let line = fast.minus(slow);
    let signal = ema_step(line, prev_signal, signal_period);
    Ok((line, signal, line.minus(signal), fast, slow))
}

/// Fills the five outputs with line, signal, histogram, fast average and
/// slow average.
///
/// On success the first `slow_period + signal_period - 2` entries of every
/// output hold the marker for "no value". A rejected call leaves the outputs
/// as they were.
pub fn macd<T: Scalar>(
    input: &[T],
    fast_period: usize,
    slow_period: usize,
    signal_period: usize,
    output_macd_line: &mut [T],
    output_signal_line: &mut [T],
    output_histogram: &mut [T],
    output_fast_ema: &mut [T],
    output_slow_ema: &mut [T],
) -> (r: Result<(), KandError>)
    ensures
        r == verdict(
            input.len(),
            fast_period,
            slow_period,
            signal_period,
            old(output_macd_line).len(),
            old(output_signal_line).len(),
            old(output_histogram).len(),
            old(output_fast_ema).len(),
            old(output_slow_ema).len(),
        ),
        periods_verdict(fast_period, slow_period, signal_period) is Err ==> r == Err::<
            (),
            KandError,
        >(KandError::InvalidPeriod),
        r.is_ok() ==> {
            let expected = series(input@, fast_period, slow_period, signal_period);
            &&& final(output_macd_line)@.len() == input@.len()
            &&& final(output_signal_line)@.len() == input@.len()
            &&& final(output_histogram)@.len() == input@.len()
            &&& final(output_fast_ema)@.len() == input@.len()
            &&& final(output_slow_ema)@.len() == input@.len()
            &&& final(output_macd_line)@ == expected.0
            &&& final(output_signal_line)@ == expected.1
            &&& final(output_histogram)@ == expected.2
            &&& final(output_fast_ema)@ == expected.3
            &&& final(output_slow_ema)@ == expected.4
        },
        r.is_err() ==> {
            &&& final(output_macd_line)@ == old(output_macd_line)@
            &&& final(output_signal_line)@ == old(output_signal_line)@
            &&& final(output_histogram)@ == old(output_histogram)@
            &&& final(output_fast_ema)@ == old(output_fast_ema)@
            &&& final(output_slow_ema)@ == old(output_slow_ema)@
        },
{
    let len = input.len();
    validate(
        len,
        fast_period,
        slow_period,
        signal_period,
        output_macd_line.len(),
        output_signal_line.len(),
        output_histogram.len(),
        output_fast_ema.len(),
        output_slow_ema.len(),
    )?;
    let warmup = slow_period - 1 + (signal_period - 1);
    let undefined = T::undefined();
    let mut i: usize = 0;
    while i < warmup
        invariant
            i <= warmup < len,
            len == output_macd_line.len(),
            len == output_signal_line.len(),
            len == output_histogram.len(),
            len == output_fast_ema.len(),
            len == output_slow_ema.len(),
            undefined == T::undefined_spec(),
            forall|j: int| 0 <= j < i ==> output_macd_line@[j] == T::undefined_spec(),
            forall|j: int| 0 <= j < i ==> output_signal_line@[j] == T::undefined_spec(),
            forall|j: int| 0 <= j < i ==> output_histogram@[j] == T::undefined_spec(),
            forall|j: int| 0 <= j < i ==> output_fast_ema@[j] == T::undefined_spec(),
            forall|j: int| 0 <= j < i ==> output_slow_ema@[j] == T::undefined_spec(),
        decreases warmup - i,
    {
        output_macd_line[i] = undefined;
        output_signal_line[i] = undefined;
        output_histogram[i] = undefined;
        output_fast_ema[i] = undefined;
        output_slow_ema[i] = undefined;
        i += 1;
    }
    // The fast average starts first: bring it to where the slow one starts.
    let mut fast = window_mean(input, 0, fast_period);
    let mut k: usize = fast_period - 1;
    while k < slow_period - 1
        invariant
            1 <= fast_period,
            fast_period - 1 <= k <= slow_period - 1 < len,
            len == input.len(),
            fast == price_ema_at(input@, fast_period, k as int),
        decreases slow_period - 1 - k,
    {
        k += 1;
        fast = ema_step(input[k], fast, fast_period);
    }
    let mut slow = window_mean(input, 0, slow_period);
    // The signal is seeded with the mean of its first `signal_period` line
    // values.
    let ghost line = line_values(input@, fast_period, slow_period);
    let mut sum = T::from_count(0).plus(fast.minus(slow));
    assert(window_sum_spec(line, slow_period - 1, 0) == zero_spec::<T>());
    let mut n: usize = 1;
    while n < signal_period
        invariant
            1 <= fast_period < slow_period,
            1 <= n <= signal_period,
            k == slow_period - 1 + (n - 1),
            warmup == slow_period - 1 + (signal_period - 1),
            warmup < len,
            len == input.len(),
            line == line_values(input@, fast_period, slow_period),
            fast == price_ema_at(input@, fast_period, k as int),
            slow == price_ema_at(input@, slow_period, k as int),
            sum == window_sum_spec(line, slow_period - 1, n as nat),
        decreases signal_period - n,
    {
        k += 1;
        fast = ema_step(input[k], fast, fast_period);
        slow = ema_step(input[k], slow, slow_period);
        sum = sum.plus(fast.minus(slow));
        n += 1;
    }
    let mut signal = sum.over(T::from_count(signal_period));
    let first_line = fast.minus(slow);
    output_macd_line[k] = first_line;
    output_signal_line[k] = signal;
    output_histogram[k] = first_line.minus(signal);
    output_fast_ema[k] = fast;
    output_slow_ema[k] = slow;
    while k + 1 < len
        invariant
            1 <= fast_period < slow_period,
            1 <= signal_period,
            warmup == slow_period - 1 + (signal_period - 1),
            warmup <= k < len,
            len == input.len(),
            len == output_macd_line.len(),
            len == output_signal_line.len(),
            len == output_histogram.len(),
            len == output_fast_ema.len(),
            len == output_slow_ema.len(),
            line == line_values(input@, fast_period, slow_period),
            fast == price_ema_at(input@, fast_period, k as int),
            slow == price_ema_at(input@, slow_period, k as int),
            signal == signal_at(input@, fast_period, slow_period, signal_period, k as int),
            forall|j: int| 0 <= j < warmup ==> output_macd_line@[j] == T::undefined_spec(),
            forall|j: int| 0 <= j < warmup ==> output_signal_line@[j] == T::undefined_spec(),
            forall|j: int| 0 <= j < warmup ==> output_histogram@[j] == T::undefined_spec(),
            forall|j: int| 0 <= j < warmup ==> output_fast_ema@[j] == T::undefined_spec(),
            forall|j: int| 0 <= j < warmup ==> output_slow_ema@[j] == T::undefined_spec(),
            forall|j: int|
                warmup <= j <= k ==> output_macd_line@[j] == values_at(
                    input@,
                    fast_period,
                    slow_period,
                    signal_period,
                    j,
                ).0,
            forall|j: int|
                warmup <= j <= k ==> output_signal_line@[j] == values_at(
                    input@,
                    fast_period,
                    slow_period,
                    signal_period,
                    j,
                ).1,
            forall|j: int|
                warmup <= j <= k ==> output_histogram@[j] == values_at(
                    input@,
                    fast_period,
                    slow_period,
                    signal_period,
                    j,
                ).2,
            forall|j: int|
                warmup <= j <= k ==> output_fast_ema@[j] == values_at(
                    input@,
                    fast_period,
                    slow_period,
                    signal_period,
                    j,
                ).3,
            forall|j: int|
                warmup <= j <= k ==> output_slow_ema@[j] == values_at(
                    input@,
                    fast_period,
                    slow_period,
                    signal_period,
                    j,
                ).4,
        decreases len - k,
    {
        k += 1;
        fast = ema_step(input[k], fast, fast_period);
        slow = ema_step(input[k], slow, slow_period);
        let line_value = fast.minus(slow);
        signal = ema_step(line_value, signal, signal_period);
        output_macd_line[k] = line_value;
        output_signal_line[k] = signal;
        output_histogram[k] = line_value.minus(signal);
        output_fast_ema[k] = fast;
        output_slow_ema[k] = slow;
    }
    Ok(())
}

/// Computes line, signal, histogram, fast average and slow average into
/// five new series.
pub fn macd_to_vec<T: Scalar>(
    input: &[T],
    fast_period: usize,
    slow_period: usize,
    signal_period: usize,
) -> (r: Result<(Vec<T>, Vec<T>, Vec<T>, Vec<T>, Vec<T>), KandError>)
    ensures
        ({
            let len = input.len();
            let judged = verdict(
                len,
                fast_period,
                slow_period,
                signal_period,
                len,
                len,
                len,
                len,
                len,
            );
            match r {
                Ok(outputs) => {
                    let expected = series(input@, fast_period, slow_period, signal_period);
                    &&& judged is Ok
                    &&& outputs.0@ == expected.0
                    &&& outputs.1@ == expected.1
                    &&& outputs.2@ == expected.2
                    &&& outputs.3@ == expected.3
                    &&& outputs.4@ == expected.4
                },
                Err(e) => judged == Err::<(), KandError>(e),
            }
        }),
{
    let len = input.len();
    let mut macd_line = filled(len, T::undefined());
    let mut signal_line = filled(len, T::undefined());
    let mut histogram = filled(len, T::undefined());
    let mut fast_ema = filled(len, T::undefined());
    let mut slow_ema = filled(len, T::undefined());
    macd(
        input,
        fast_period,
        slow_period,
        signal_period,
        macd_line.as_mut_slice(),
        signal_line.as_mut_slice(),
        histogram.as_mut_slice(),
        fast_ema.as_mut_slice(),
        slow_ema.as_mut_slice(),
    )?;
    Ok((macd_line, signal_line, histogram, fast_ema, slow_ema))
}

/// Every output series is as long as its input, holds the marker for "no
/// value" before the warm-up length and the values of the indicator from
/// there on.
pub proof fn lemma_series_shape<T: Scalar>(
    prices: Seq<T>,
    fast_period: usize,
    slow_period: usize,
    signal_period: usize,
    i: int,
)
    requires
        0 <= i < prices.len(),
    ensures
        ({
            let s = series(prices, fast_period, slow_period, signal_period);
            let warmup = warmup_length_spec(slow_period, signal_period);
            let values = values_at(prices, fast_period, slow_period, signal_period, i);
            let none = T::undefined_spec();
            &&& s.0.len() == prices.len()
            &&& s.1.len() == prices.len()
            &&& s.2.len() == prices.len()
            &&& s.3.len() == prices.len()
            &&& s.4.len() == prices.len()
            &&& i < warmup ==> (s.0[i], s.1[i], s.2[i], s.3[i], s.4[i]) == (
                none,
                none,
                none,
                none,
                none,
            )
            &&& i >= warmup ==> (s.0[i], s.1[i], s.2[i], s.3[i], s.4[i]) == values
        }),
{
}

/// The step form reproduces the whole-series form at every index past the
/// first value: fed with the price at `i` and the fast average, slow average
/// and signal that the series hold at `i - 1`, a step returns what the
/// series hold at `i`.
pub proof fn lemma_step_matches_series<T: Scalar>(
    prices: Seq<T>,
    fast_period: usize,
    slow_period: usize,
    signal_period: usize,
    i: int,
)
    requires
        periods_verdict(fast_period, slow_period, signal_period) is Ok,
        warmup_length_spec(slow_period, signal_period) < i < prices.len(),
    ensures
        ({
            let s = series(prices, fast_period, slow_period, signal_period);
            step_spec(
                prices[i],
                s.3[i - 1],
                s.4[i - 1],
                s.1[i - 1],
                fast_period,
                slow_period,
                signal_period,
            ) == (s.0[i], s.1[i], s.2[i], s.3[i], s.4[i])
        }),
{
    lemma_series_shape(prices, fast_period, slow_period, signal_period, i);
    lemma_series_shape(prices, fast_period, slow_period, signal_period, i - 1);
    let line = line_values(prices, fast_period, slow_period);
}

/// What the step form holds at index `i` when it is seeded at the warm-up
/// length with the values of the whole-series form and then fed the prices
/// after that one at a time, each step taking the two averages and the
/// signal that the step before it returned.
pub open spec fn stepped_at<T: Scalar>(
    prices: Seq<T>,
    fast_period: usize,
    slow_period: usize,
    signal_period: usize,
    i: int,
) -> (T, T, T, T, T)
    decreases i - warmup_length_spec(slow_period, signal_period),
{
    if i <= warmup_length_spec(slow_period, signal_period) {
        values_at(
            prices,
            fast_period,
            slow_period,
            signal_period,
            warmup_length_spec(slow_period, signal_period),
        )
    } else {
        let carried = stepped_at(prices, fast_period, slow_period, signal_period, i - 1);
        step_spec(
            prices[i],
            carried.3,
            carried.4,
            carried.1,
            fast_period,
            slow_period,
            signal_period,
        )
    }
}

/// Seeded at the warm-up length and fed one price at a time, the step form
/// reproduces the whole-series form at every index from there on.
pub proof fn lemma_steps_reproduce_series<T: Scalar>(
    prices: Seq<T>,
    fast_period: usize,
    slow_period: usize,
    signal_period: usize,
    i: int,
)
    requires
        periods_verdict(fast_period, slow_period, signal_period) is Ok,
        warmup_length_spec(slow_period, signal_period) <= i < prices.len(),
    ensures
        ({
            let s = series(prices, fast_period, slow_period, signal_period);
            stepped_at(prices, fast_period, slow_period, signal_period, i) == (
                s.0[i],
                s.1[i],
                s.2[i],
                s.3[i],
                s.4[i],
            )
        }),
    decreases i,
{
    lemma_series_shape(prices, fast_period, slow_period, signal_period, i);
    if i > warmup_length_spec(slow_period, signal_period) {
        lemma_steps_reproduce_series(prices, fast_period, slow_period, signal_period, i - 1);
        lemma_step_matches_series(prices, fast_period, slow_period, signal_period, i);
    }
}

/// Asking for the verdict twice gives it twice: whatever two calls of
/// [`validate`] with the same periods and sizes return, the two results are
/// equal.
pub proof fn lemma_validate_repeats(
    len: usize,
    fast_period: usize,
    slow_period: usize,
    signal_period: usize,
    macd_line_len: usize,
    signal_line_len: usize,
    histogram_len: usize,
    fast_ema_len: usize,
    slow_ema_len: usize,
    first: Result<(), KandError>,
    second: Result<(), KandError>,
)
    requires
        call_ensures(
            validate,
            (
                len,
                fast_period,
                slow_period,
                signal_period,
                macd_line_len,
                signal_line_len,
                histogram_len,
                fast_ema_len,
                slow_ema_len,
            ),
            first,
        ),
        call_ensures(
            validate,
            (
                len,
                fast_period,
                slow_period,
                signal_period,
                macd_line_len,
                signal_line_len,
                histogram_len,
                fast_ema_len,
                slow_ema_len,
            ),
            second,
        ),
    ensures
        first == second,
{
}

} // verus!
