//! What the indicators guarantee when they run on [`Fixed`] numbers, whose
//! arithmetic is known: the range of the directional movement index, and
//! that defined inputs give defined values past the warm-up.

use crate::fixed::{quotient, Fixed, SCALE};
use crate::kernels::{
    ema_at, ema_step_spec, magnitude_spec, wilder_at, wilder_step_spec, window_highest_spec,
    window_lowest_spec, window_mean_spec, window_sum_spec, zero_spec,
};
use crate::ohlcv::dx;
use crate::ohlcv::macd;
use crate::ohlcv::midprice;
use crate::ohlcv::wclprice;
use crate::scalar::Scalar;
use vstd::arithmetic::div_mod::{lemma_div_by_multiple, lemma_div_is_ordered, lemma_div_pos_is_pos};
use vstd::prelude::*;

verus! {

/// A number that is defined and not below zero.
pub open spec fn non_negative(x: Fixed) -> bool {
    x.is_defined() && x.raw >= 0
}

/// Every entry of a series is a number.
pub open spec fn all_defined(xs: Seq<Fixed>) -> bool {
    forall|j: int| 0 <= j < xs.len() ==> (#[trigger] xs[j]).is_defined()
}

/// A quotient of a number that is not negative by a positive one is not
/// negative, and no greater than the quotient of a greater number.
proof fn lemma_quotient_ordered(x: int, y: int, d: int)
    requires
        0 <= x <= y,
        0 < d,
    ensures
        0 <= quotient(x, d) <= quotient(y, d),
{
    lemma_div_pos_is_pos(x, d);
    lemma_div_is_ordered(x, y, d);
}

/// A count that is not zero becomes a number that is at least one.
proof fn lemma_count_at_least_one(n: usize)
    requires
        n >= 1,
    ensures
        Fixed::from_count_spec(n).is_defined(),
        Fixed::from_count_spec(n).raw >= SCALE,
{
    assert(n * SCALE >= SCALE) by (nonlinear_arith)
        requires
            n >= 1,
            SCALE == 1_000_000,
    ;
}

/// Wilder smoothing keeps an accumulator of non-negative samples
/// non-negative.
proof fn lemma_wilder_step_non_negative(sample: Fixed, prev: Fixed, period: usize)
    requires
        non_negative(sample),
        non_negative(prev),
        period >= 1,
    ensures
        non_negative(wilder_step_spec(sample, prev, period)),
{
    lemma_count_at_least_one(period);
    let p = Fixed::from_count_spec(period).raw as int;
    let x = prev.raw as int;
    assert(0 <= x * SCALE <= x * p) by (nonlinear_arith)
        requires
            0 <= x,
            SCALE == 1_000_000,
            p >= SCALE,
    ;
    lemma_quotient_ordered(x * SCALE, x * p, p);
    lemma_div_by_multiple(x, p);
}

/// A sum of non-negative numbers is non-negative.
proof fn lemma_sum_non_negative(xs: Seq<Fixed>, start: int, count: nat)
    requires
        forall|j: int| start <= j < start + count ==> non_negative(#[trigger] xs[j]),
    ensures
        non_negative(window_sum_spec(xs, start, count)),
    decreases count,
{
    if count > 0 {
        lemma_sum_non_negative(xs, start, (count - 1) as nat);
    }
}

/// A Wilder-smoothed accumulator of non-negative numbers is non-negative.
proof fn lemma_wilder_at_non_negative(xs: Seq<Fixed>, start: int, period: usize, i: int)
    requires
        period >= 1,
        0 <= start,
        start + period - 1 <= i < xs.len(),
        forall|j: int| start <= j < xs.len() ==> non_negative(#[trigger] xs[j]),
    ensures
        non_negative(wilder_at(xs, start, period, i)),
    decreases i - start,
{
    if i <= start + period - 1 {
        lemma_sum_non_negative(xs, start, period as nat);
    } else {
        lemma_wilder_at_non_negative(xs, start, period, i - 1);
        lemma_wilder_step_non_negative(xs[i], wilder_at(xs, start, period, i - 1), period);
    }
}

/// The index of two non-negative smoothed movements is a number between 0
/// and 100.
pub proof fn lemma_dx_value_within_bounds(smoothed_plus_dm: Fixed, smoothed_minus_dm: Fixed)
    requires
        non_negative(smoothed_plus_dm),
        non_negative(smoothed_minus_dm),
    ensures
        dx::dx_value_spec(smoothed_plus_dm, smoothed_minus_dm).is_defined(),
        0 <= dx::dx_value_spec(smoothed_plus_dm, smoothed_minus_dm).raw <= 100 * SCALE,
{
    let p = smoothed_plus_dm;
    let m = smoothed_minus_dm;
    let sum = p.plus(m);
    if !sum.same(zero_spec()) {
        let d = magnitude_spec(p.minus(m));
        let hundred = Fixed::from_count_spec(100);
        let scaled = hundred.times(d);
        let dr = d.raw as int;
        assert(hundred.raw * d.raw == (100 * dr) * SCALE) by (nonlinear_arith)
            requires
                hundred.raw == 100 * SCALE,
                dr == d.raw,
        ;
        lemma_div_by_multiple(100 * dr, SCALE as int);
        let s = sum.raw as int;
        let n = scaled.raw as int;
        assert(0 <= n * SCALE <= (100 * SCALE) * s) by (nonlinear_arith)
            requires
                0 <= n <= 100 * dr,
                0 <= dr <= s,
                SCALE == 1_000_000,
        ;
        lemma_quotient_ordered(n * SCALE, (100 * SCALE) * s, s);
        lemma_div_by_multiple(100 * SCALE, s);
    }
}

/// The movements between two bars are non-negative numbers, whatever the
/// bars hold.
pub proof fn lemma_movements_non_negative(
    high: Fixed,
    prev_high: Fixed,
    low: Fixed,
    prev_low: Fixed,
)
    ensures
        non_negative(dx::plus_dm_spec(high, prev_high, low, prev_low)),
        non_negative(dx::minus_dm_spec(high, prev_high, low, prev_low)),
{
}

/// Wherever the whole-series form of the directional movement index has a
/// value, it is a number between 0 and 100, and the two smoothed movements
/// beside it are non-negative numbers. This holds of every input, series
/// with entries that are no numbers included.
pub proof fn lemma_dx_within_bounds(
    high: Seq<Fixed>,
    low: Seq<Fixed>,
    close: Seq<Fixed>,
    period: usize,
    i: int,
)
    requires
        dx::period_verdict(period) is Ok,
        low.len() == high.len(),
        close.len() == high.len(),
        dx::warmup_length_spec(period) <= i < high.len(),
    ensures
        ({
            let s = dx::series(high, low, close, period);
            &&& s.0[i].is_defined()
            &&& 0 <= s.0[i].raw <= 100 * SCALE
            &&& non_negative(s.1[i])
            &&& non_negative(s.2[i])
        }),
{
    dx::lemma_series_shape(high, low, close, period, i);
    let plus_values = dx::plus_dm_values(high, low);
    let minus_values = dx::minus_dm_values(high, low);
    assert forall|j: int| 1 <= j < plus_values.len() implies non_negative(
        #[trigger] plus_values[j],
    ) by {
        lemma_movements_non_negative(high[j], high[j - 1], low[j], low[j - 1]);
    }
    assert forall|j: int| 1 <= j < minus_values.len() implies non_negative(
        #[trigger] minus_values[j],
    ) by {
        lemma_movements_non_negative(high[j], high[j - 1], low[j], low[j - 1]);
    }
    lemma_wilder_at_non_negative(plus_values, 1, period, i);
    lemma_wilder_at_non_negative(minus_values, 1, period, i);
    lemma_dx_value_within_bounds(
        wilder_at(plus_values, 1, period, i),
        wilder_at(minus_values, 1, period, i),
    );
}

/// A step of the directional movement index on non-negative carried
/// movements yields an index between 0 and 100 and movements that are
/// non-negative again.
pub proof fn lemma_dx_step_within_bounds(
    high: Fixed,
    low: Fixed,
    prev_high: Fixed,
    prev_low: Fixed,
    prev_close: Fixed,
    prev_smoothed_plus_dm: Fixed,
    prev_smoothed_minus_dm: Fixed,
    prev_smoothed_tr: Fixed,
    period: usize,
)
    requires
        dx::period_verdict(period) is Ok,
        non_negative(prev_smoothed_plus_dm),
        non_negative(prev_smoothed_minus_dm),
    ensures
        ({
            let next = dx::step_spec(
                high,
                low,
                prev_high,
                prev_low,
                prev_close,
                prev_smoothed_plus_dm,
                prev_smoothed_minus_dm,
                prev_smoothed_tr,
                period,
            );
            &&& next.0.is_defined()
            &&& 0 <= next.0.raw <= 100 * SCALE
            &&& non_negative(next.1)
            &&& non_negative(next.2)
        }),
{
    lemma_movements_non_negative(high, prev_high, low, prev_low);
    lemma_wilder_step_non_negative(
        dx::plus_dm_spec(high, prev_high, low, prev_low),
        prev_smoothed_plus_dm,
        period,
    );
    lemma_wilder_step_non_negative(
        dx::minus_dm_spec(high, prev_high, low, prev_low),
        prev_smoothed_minus_dm,
        period,
    );
    lemma_dx_value_within_bounds(
        wilder_step_spec(
            dx::plus_dm_spec(high, prev_high, low, prev_low),
            prev_smoothed_plus_dm,
            period,
        ),
        wilder_step_spec(
            dx::minus_dm_spec(high, prev_high, low, prev_low),
            prev_smoothed_minus_dm,
            period,
        ),
    );
}

/// A sum of numbers is a number.
proof fn lemma_sum_defined(xs: Seq<Fixed>, start: int, count: nat)
    requires
        0 <= start,
        start + count <= xs.len(),
        all_defined(xs),
    ensures
        window_sum_spec(xs, start, count).is_defined(),
    decreases count,
{
    if count > 0 {
        lemma_sum_defined(xs, start, (count - 1) as nat);
    }
}

/// The mean of a window of numbers that is not empty is a number.
proof fn lemma_mean_defined(xs: Seq<Fixed>, start: int, count: usize)
    requires
        count >= 1,
        0 <= start,
        start + count <= xs.len(),
        all_defined(xs),
    ensures
        window_mean_spec(xs, start, count).is_defined(),
{
    lemma_sum_defined(xs, start, count as nat);
    lemma_count_at_least_one(count);
}

/// The extremes of a window of numbers are numbers.
proof fn lemma_extremes_defined(xs: Seq<Fixed>, start: int, count: nat)
    requires
        count >= 1,
        0 <= start,
        start + count <= xs.len(),
        all_defined(xs),
    ensures
        window_highest_spec(xs, start, count).is_defined(),
        window_lowest_spec(xs, start, count).is_defined(),
    decreases count,
{
    if count > 1 {
        lemma_extremes_defined(xs, start, (count - 1) as nat);
    }
}

/// A step of exponential smoothing on numbers yields a number.
proof fn lemma_ema_step_defined(sample: Fixed, prev: Fixed, period: usize)
    requires
        sample.is_defined(),
        prev.is_defined(),
    ensures
        ema_step_spec(sample, prev, period).is_defined(),
{
    assert(0 <= period * SCALE) by (nonlinear_arith)
        requires
            0 <= period,
            SCALE == 1_000_000,
    ;
}

/// A step of Wilder smoothing on numbers yields a number.
proof fn lemma_wilder_step_defined(sample: Fixed, prev: Fixed, period: usize)
    requires
        sample.is_defined(),
        prev.is_defined(),
        period >= 1,
    ensures
        wilder_step_spec(sample, prev, period).is_defined(),
{
    lemma_count_at_least_one(period);
}

/// An exponential moving average over numbers is a number.
proof fn lemma_ema_at_defined(xs: Seq<Fixed>, start: int, period: usize, i: int)
    requires
        period >= 1,
        0 <= start,
        start + period <= xs.len(),
        i < xs.len(),
        all_defined(xs),
    ensures
        ema_at(xs, start, period, i).is_defined(),
    decreases i - start,
{
    if i <= start + period - 1 {
        lemma_mean_defined(xs, start, period);
    } else {
        lemma_ema_at_defined(xs, start, period, i - 1);
        lemma_ema_step_defined(xs[i], ema_at(xs, start, period, i - 1), period);
    }
}

/// A Wilder-smoothed accumulator over numbers is a number.
proof fn lemma_wilder_at_defined(xs: Seq<Fixed>, start: int, period: usize, i: int)
    requires
        period >= 1,
        0 <= start,
        start + period <= xs.len(),
        i < xs.len(),
        all_defined(xs),
    ensures
        wilder_at(xs, start, period, i).is_defined(),
    decreases i - start,
{
    if i <= start + period - 1 {
        lemma_sum_defined(xs, start, period as nat);
    } else {
        lemma_wilder_at_defined(xs, start, period, i - 1);
        lemma_wilder_step_defined(xs[i], wilder_at(xs, start, period, i - 1), period);
    }
}

/// The weighted close of bars that hold numbers is a number at every
/// index.
pub proof fn lemma_wclprice_defined(high: Seq<Fixed>, low: Seq<Fixed>, close: Seq<Fixed>, i: int)
    requires
        low.len() == high.len(),
        close.len() == high.len(),
        all_defined(high),
        all_defined(low),
        all_defined(close),
        0 <= i < high.len(),
    ensures
        wclprice::series(high, low, close)[i].is_defined(),
{
}

/// The midpoint price of bars that hold numbers, and the two extremes
/// beside it, are numbers from the warm-up length on.
pub proof fn lemma_midprice_defined(high: Seq<Fixed>, low: Seq<Fixed>, period: usize, i: int)
    requires
        midprice::period_verdict(period) is Ok,
        low.len() == high.len(),
        all_defined(high),
        all_defined(low),
        midprice::warmup_length_spec(period) <= i < high.len(),
    ensures
        midprice::midprice_series(high, low, period)[i].is_defined(),
        midprice::highest_series(high, period)[i].is_defined(),
        midprice::lowest_series(low, period)[i].is_defined(),
{
    midprice::lemma_series_shape(high, low, period, i);
    lemma_extremes_defined(high, i - period + 1, period as nat);
    lemma_extremes_defined(low, i - period + 1, period as nat);
}

/// The five values of the convergence/divergence indicator over prices
/// that are numbers are numbers from the warm-up length on.
pub proof fn lemma_macd_defined(
    prices: Seq<Fixed>,
    fast_period: usize,
    slow_period: usize,
    signal_period: usize,
    i: int,
)
    requires
        macd::periods_verdict(fast_period, slow_period, signal_period) is Ok,
        all_defined(prices),
        macd::warmup_length_spec(slow_period, signal_period) <= i < prices.len(),
    ensures
        ({
            let s = macd::series(prices, fast_period, slow_period, signal_period);
            &&& s.0[i].is_defined()
            &&& s.1[i].is_defined()
            &&& s.2[i].is_defined()
            &&& s.3[i].is_defined()
            &&& s.4[i].is_defined()
        }),
{
    macd::lemma_series_shape(prices, fast_period, slow_period, signal_period, i);
    let line = macd::line_values(prices, fast_period, slow_period);
    assert forall|j: int| 0 <= j < line.len() implies (#[trigger] line[j]).is_defined() by {
        lemma_ema_at_defined(prices, 0, fast_period, j);
        lemma_ema_at_defined(prices, 0, slow_period, j);
    }
    lemma_ema_at_defined(prices, 0, fast_period, i);
    lemma_ema_at_defined(prices, 0, slow_period, i);
    lemma_ema_at_defined(line, slow_period - 1, signal_period, i);
}

/// The four values of the directional movement index over bars that hold
/// numbers are numbers from the warm-up length on.
pub proof fn lemma_dx_defined(
    high: Seq<Fixed>,
    low: Seq<Fixed>,
    close: Seq<Fixed>,
    period: usize,
    i: int,
)
    requires
        dx::period_verdict(period) is Ok,
        low.len() == high.len(),
        close.len() == high.len(),
        all_defined(high),
        all_defined(low),
        all_defined(close),
        dx::warmup_length_spec(period) <= i < high.len(),
    ensures
        ({
            let s = dx::series(high, low, close, period);
            &&& s.0[i].is_defined()
            &&& s.1[i].is_defined()
            &&& s.2[i].is_defined()
            &&& s.3[i].is_defined()
        }),
{
    lemma_dx_within_bounds(high, low, close, period, i);
    dx::lemma_series_shape(high, low, close, period, i);
    let ranges = dx::true_range_values(high, low, close);
    assert(all_defined(ranges));
    lemma_wilder_at_defined(ranges, 1, period, i);
}

/// On numbers, the scan of a window finds its maximum and its minimum: the
/// highest entry is one of the entries and no entry exceeds it, and the
/// lowest likewise.
pub proof fn lemma_extremes_are_extreme(xs: Seq<Fixed>, start: int, count: nat)
    requires
        count >= 1,
        0 <= start,
        start + count <= xs.len(),
        all_defined(xs),
    ensures
        forall|j: int|
            start <= j < start + count ==> (#[trigger] xs[j]).raw <= window_highest_spec(
                xs,
                start,
                count,
            ).raw,
        exists|j: int|
            start <= j < start + count && #[trigger] xs[j] == window_highest_spec(xs, start, count),
        forall|j: int|
            start <= j < start + count ==> (#[trigger] xs[j]).raw >= window_lowest_spec(
                xs,
                start,
                count,
            ).raw,
        exists|j: int|
            start <= j < start + count && #[trigger] xs[j] == window_lowest_spec(xs, start, count),
    decreases count,
{
    lemma_extremes_defined(xs, start, count);
    if count > 1 {
        let before = (count - 1) as nat;
        lemma_extremes_are_extreme(xs, start, before);
        lemma_extremes_defined(xs, start, before);
    }
}

/// How far a step of the midpoint price can stray from the scan, on bars
/// that hold numbers.
///
/// Fed with the bar at `i` and the extremes that the series hold at `i - 1`,
/// a step returns as highest high the greater of the series' highest high at
/// `i` and the high of the bar that has just left the window, and as lowest
/// low the lesser of the series' lowest low at `i` and the low of that bar.
/// So the step never reports a narrower range than the scan, and it agrees
/// with the scan exactly when the bar that left holds no extreme beyond
/// those of the window.
pub proof fn lemma_midprice_step_against_scan(
    high: Seq<Fixed>,
    low: Seq<Fixed>,
    period: usize,
    i: int,
)
    requires
        midprice::period_verdict(period) is Ok,
        low.len() == high.len(),
        all_defined(high),
        all_defined(low),
        midprice::warmup_length_spec(period) < i < high.len(),
    ensures
        ({
            let next = midprice::step_spec(
                high[i],
                low[i],
                midprice::highest_series(high, period)[i - 1],
                midprice::lowest_series(low, period)[i - 1],
            );
            let scan_highest = midprice::highest_series(high, period)[i];
            let scan_lowest = midprice::lowest_series(low, period)[i];
            let left_high = high[i - period];
            let left_low = low[i - period];
            &&& next.1 == (if scan_highest.raw < left_high.raw {
                left_high
            } else {
                scan_highest
            })
            &&& next.2 == (if left_low.raw < scan_lowest.raw {
                left_low
            } else {
                scan_lowest
            })
            &&& next.1.raw >= scan_highest.raw
            &&& next.2.raw <= scan_lowest.raw
            &&& left_high.raw <= scan_highest.raw && left_low.raw >= scan_lowest.raw ==> next == (
                midprice::midprice_series(high, low, period)[i],
                scan_highest,
                scan_lowest,
            )
        }),
{
    midprice::lemma_series_shape(high, low, period, i);
    midprice::lemma_series_shape(high, low, period, i - 1);
    lemma_extremes_are_extreme(high, i - period, period as nat);
    lemma_extremes_are_extreme(high, i - period + 1, period as nat);
    lemma_extremes_are_extreme(low, i - period, period as nat);
    lemma_extremes_are_extreme(low, i - period + 1, period as nat);
}

} // verus!
