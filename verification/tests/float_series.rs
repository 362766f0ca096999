use kand::error::KandError;
use kand::kernels::{
    ema_step, filled, larger, magnitude, regression_line, regression_sums, smaller, wilder_step,
    window_highest, window_lowest, window_mean, window_sum,
};
use kand::ohlcv::dx::{
    dx, dx_incremental, dx_to_vec, dx_value, minus_dm, plus_dm, true_range,
};
use kand::ohlcv::macd::{macd, macd_inc, macd_to_vec};
use kand::ohlcv::midprice::{midprice, midprice_inc, midprice_to_vec};
use kand::ohlcv::wclprice::{wclprice, wclprice_inc, wclprice_to_vec};
use kand::scalar::Scalar;

/// A 64-bit float as a number type of the library: every operation is the
/// float operation, and "no value" is NaN.
#[derive(Clone, Copy, Debug, PartialEq)]
struct Real(f64);

impl Scalar for Real {
    fn undefined_spec() -> Self {
        Real(f64::NAN)
    }

    fn undefined() -> Self {
        Real(f64::NAN)
    }

    fn from_count_spec(n: usize) -> Self {
        Real(n as f64)
    }

    fn from_count(n: usize) -> Self {
        Real(n as f64)
    }

    fn plus_spec(self, rhs: Self) -> Self {
        Real(self.0 + rhs.0)
    }

    fn plus(self, rhs: Self) -> Self {
        Real(self.0 + rhs.0)
    }

    fn minus_spec(self, rhs: Self) -> Self {
        Real(self.0 - rhs.0)
    }

    fn minus(self, rhs: Self) -> Self {
        Real(self.0 - rhs.0)
    }

    fn times_spec(self, rhs: Self) -> Self {
        Real(self.0 * rhs.0)
    }

    fn times(self, rhs: Self) -> Self {
        Real(self.0 * rhs.0)
    }

    fn over_spec(self, rhs: Self) -> Self {
        Real(self.0 / rhs.0)
    }

    fn over(self, rhs: Self) -> Self {
        Real(self.0 / rhs.0)
    }

    fn below_spec(self, rhs: Self) -> bool {
        self.0 < rhs.0
    }

    fn below(self, rhs: Self) -> bool {
        self.0 < rhs.0
    }

    fn same_spec(self, rhs: Self) -> bool {
        self.0 == rhs.0
    }

    fn same(self, rhs: Self) -> bool {
        self.0 == rhs.0
    }
}

fn reals(values: &[f64]) -> Vec<Real> {
    values.iter().map(|v| Real(*v)).collect()
}

fn blank(len: usize) -> Vec<Real> {
    vec![Real(0.0); len]
}

fn close_to(actual: Real, expected: f64) -> bool {
    let scale = if expected.abs() > 1.0 { expected.abs() } else { 1.0 };
    (actual.0 - expected).abs() <= 1e-9 * scale
}

fn assert_series(actual: &[Real], warmup: usize, expected: &[f64]) {
    assert_eq!(actual.len(), warmup + expected.len());
    for i in 0..warmup {
        assert!(actual[i].0.is_nan(), "index {i} should hold no value");
    }
    for (k, e) in expected.iter().enumerate() {
        assert!(
            close_to(actual[warmup + k], *e),
            "index {}: {:?} is not {}",
            warmup + k,
            actual[warmup + k],
            e
        );
    }
}

#[test]
fn weighted_close_of_one_bar_is_exact() {
    let r = wclprice_inc(Real(15.0), Real(11.0), Real(14.0));
    assert_eq!(r, Ok(Real(13.5)));
}

#[test]
fn weighted_close_series_in_floats() {
    let high = reals(&[10.0, 12.0, 15.0]);
    let low = reals(&[8.0, 9.0, 11.0]);
    let close = reals(&[9.0, 11.0, 14.0]);
    let mut out = blank(3);
    assert_eq!(wclprice(&high, &low, &close, &mut out), Ok(()));
    assert_eq!(out, reals(&[9.0, 10.75, 13.5]));
}

#[test]
fn weighted_close_series_matches_its_step_at_every_index() {
    let high = reals(&[10.0, 12.5, 15.25, 11.0]);
    let low = reals(&[8.0, 9.5, 11.75, 10.0]);
    let close = reals(&[9.0, 11.0, 14.0, 10.5]);
    let mut out = blank(4);
    assert_eq!(wclprice(&high, &low, &close, &mut out), Ok(()));
    assert_eq!(out.len(), high.len());
    for i in 0..4 {
        assert_eq!(Ok(out[i]), wclprice_inc(high[i], low[i], close[i]));
    }
}

#[test]
fn weighted_close_rejects_unequal_lengths_and_writes_nothing() {
    let high = reals(&[10.0, 12.0, 15.0]);
    let low = reals(&[8.0, 9.0]);
    let close = reals(&[9.0, 11.0, 14.0]);
    let mut out = reals(&[7.0, 7.0, 7.0]);
    assert_eq!(wclprice(&high, &low, &close, &mut out), Err(KandError::LengthMismatch));
    assert_eq!(out, reals(&[7.0, 7.0, 7.0]));
    let mut short = reals(&[7.0, 7.0]);
    assert_eq!(wclprice(&high, &close, &close, &mut short), Err(KandError::LengthMismatch));
    assert_eq!(short, reals(&[7.0, 7.0]));
}

#[test]
fn weighted_close_rejects_empty_series() {
    let empty: Vec<Real> = Vec::new();
    let mut out: Vec<Real> = Vec::new();
    assert_eq!(wclprice(&empty, &empty, &empty, &mut out), Err(KandError::InsufficientData));
}

#[test]
fn midpoint_of_the_documented_bars() {
    let high = reals(&[10.0, 12.0, 15.0, 14.0, 13.0]);
    let low = reals(&[8.0, 9.0, 11.0, 10.0, 9.0]);
    let mut mid = blank(5);
    let mut highest = blank(5);
    let mut lowest = blank(5);
    assert_eq!(midprice(&high, &low, 3, &mut mid, &mut highest, &mut lowest), Ok(()));
    assert!(mid[0].0.is_nan() && mid[1].0.is_nan());
    assert_eq!(mid[2], Real(11.5));
    assert_series(&mid, 2, &[11.5, 12.0, 12.0]);
    assert_series(&highest, 2, &[15.0, 15.0, 15.0]);
    assert_series(&lowest, 2, &[8.0, 9.0, 9.0]);
}

#[test]
fn midpoint_accepts_a_series_as_long_as_the_period() {
    let high = reals(&[10.0, 12.0, 11.0]);
    let low = reals(&[8.0, 9.0, 7.0]);
    let mut mid = blank(3);
    let mut highest = blank(3);
    let mut lowest = blank(3);
    assert_eq!(midprice(&high, &low, 3, &mut mid, &mut highest, &mut lowest), Ok(()));
    assert_series(&mid, 2, &[9.5]);
    assert_series(&highest, 2, &[12.0]);
    assert_series(&lowest, 2, &[7.0]);
}

#[test]
fn midpoint_step_widens_the_extremes() {
    let r = midprice_inc(Real(10.5), Real(9.8), Real(10.2), Real(9.5), 14);
    assert_eq!(r, Ok((Real(10.0), Real(10.5), Real(9.5))));
    let r = midprice_inc(Real(10.0), Real(9.0), Real(10.2), Real(9.5), 14);
    assert_eq!(r, Ok((Real(9.6), Real(10.2), Real(9.0))));
}

#[test]
fn midpoint_step_reproduces_the_series_while_the_extremes_stay_in_the_window() {
    // The highest high and the lowest low sit in the newest bars, so no
    // extreme leaves the window.
    let high = reals(&[10.0, 11.0, 12.0, 13.0, 14.0]);
    let low = reals(&[9.0, 8.0, 7.0, 6.0, 5.0]);
    let mut mid = blank(5);
    let mut highest = blank(5);
    let mut lowest = blank(5);
    assert_eq!(midprice(&high, &low, 2, &mut mid, &mut highest, &mut lowest), Ok(()));
    for i in 2..5 {
        let step = midprice_inc(high[i], low[i], highest[i - 1], lowest[i - 1], 2);
        assert_eq!(step, Ok((mid[i], highest[i], lowest[i])));
    }
}

#[test]
fn midpoint_step_keeps_an_extreme_that_left_the_window() {
    let high = reals(&[10.0, 12.0, 15.0, 14.0, 13.0, 12.0]);
    let low = reals(&[8.0, 9.0, 11.0, 10.0, 9.0, 9.5]);
    let mut mid = blank(6);
    let mut highest = blank(6);
    let mut lowest = blank(6);
    assert_eq!(midprice(&high, &low, 3, &mut mid, &mut highest, &mut lowest), Ok(()));
    // The scan forgets the 15 at index 2 once the window has passed it.
    assert_eq!(highest[5], Real(14.0));
    // The step cannot: it only knows the extreme that it was handed.
    let step = midprice_inc(high[5], low[5], highest[4], lowest[4], 3);
    assert_eq!(step, Ok((Real(12.0), Real(15.0), Real(9.0))));
}

#[test]
fn midpoint_rejects_a_period_below_two() {
    let high = reals(&[10.0, 12.0, 15.0]);
    let low = reals(&[8.0, 9.0, 11.0]);
    for period in [0usize, 1] {
        let mut mid = reals(&[1.0, 2.0, 3.0]);
        let mut highest = reals(&[4.0, 5.0, 6.0]);
        let mut lowest = reals(&[7.0, 8.0, 9.0]);
        assert_eq!(
            midprice(&high, &low, period, &mut mid, &mut highest, &mut lowest),
            Err(KandError::InvalidPeriod)
        );
        assert_eq!(mid, reals(&[1.0, 2.0, 3.0]));
        assert_eq!(highest, reals(&[4.0, 5.0, 6.0]));
        assert_eq!(lowest, reals(&[7.0, 8.0, 9.0]));
        assert_eq!(
            midprice_inc(Real(1.0), Real(1.0), Real(1.0), Real(1.0), period),
            Err(KandError::InvalidPeriod)
        );
    }
}

#[test]
fn midpoint_rejects_short_and_unequal_series() {
    let high = reals(&[10.0, 12.0, 15.0]);
    let low = reals(&[8.0, 9.0, 11.0]);
    let mut mid = blank(3);
    let mut highest = blank(3);
    let mut lowest = blank(3);
    assert_eq!(
        midprice(&high, &low, 4, &mut mid, &mut highest, &mut lowest),
        Err(KandError::InsufficientData)
    );
    let mut short = blank(2);
    assert_eq!(
        midprice(&high, &low, 2, &mut mid, &mut short, &mut lowest),
        Err(KandError::LengthMismatch)
    );
    assert_eq!(mid, blank(3));
    assert_eq!(short, blank(2));
}

#[test]
fn macd_series_in_floats() {
    let data = reals(&[1.0, 4.0, 2.0, 8.0, 5.0, 7.0, 3.0]);
    let mut line = blank(7);
    let mut signal = blank(7);
    let mut histogram = blank(7);
    let mut fast = blank(7);
    let mut slow = blank(7);
    assert_eq!(
        macd(&data, 2, 3, 2, &mut line, &mut signal, &mut histogram, &mut fast, &mut slow),
        Ok(())
    );
    assert_series(
        &line,
        3,
        &[0.8888888888888884, 0.26851851851851727, 0.4089506172839501, -0.37062757201646157],
    );
    assert_series(
        &signal,
        3,
        &[0.36111111111111094, 0.2993827160493818, 0.372427983539094, -0.12294238683127634],
    );
    assert_series(
        &histogram,
        3,
        &[0.5277777777777775, -0.030864197530864557, 0.03652263374485609, -0.24768518518518523],
    );
    assert_series(
        &fast,
        3,
        &[6.055555555555555, 5.351851851851851, 6.450617283950617, 4.150205761316872],
    );
    assert_series(
        &slow,
        3,
        &[5.166666666666667, 5.083333333333334, 6.041666666666667, 4.520833333333334],
    );
}

#[test]
fn macd_of_a_straight_line_has_an_empty_histogram() {
    let data = reals(&[1.0, 2.0, 3.0, 4.0, 5.0, 6.0, 7.0]);
    let mut line = blank(7);
    let mut signal = blank(7);
    let mut histogram = blank(7);
    let mut fast = blank(7);
    let mut slow = blank(7);
    assert_eq!(
        macd(&data, 2, 3, 2, &mut line, &mut signal, &mut histogram, &mut fast, &mut slow),
        Ok(())
    );
    assert_series(&line, 3, &[0.5, 0.5, 0.5, 0.5]);
    assert_series(&signal, 3, &[0.5, 0.5, 0.5, 0.5]);
    assert_series(&histogram, 3, &[0.0, 0.0, 0.0, 0.0]);
    assert_series(&fast, 3, &[3.5, 4.5, 5.5, 6.5]);
    assert_series(&slow, 3, &[3.0, 4.0, 5.0, 6.0]);
}

#[test]
fn macd_steps_reproduce_the_series() {
    let data = reals(&[1.0, 4.0, 2.0, 8.0, 5.0, 7.0, 3.0, 9.0, 6.0]);
    let n = data.len();
    let mut line = blank(n);
    let mut signal = blank(n);
    let mut histogram = blank(n);
    let mut fast = blank(n);
    let mut slow = blank(n);
    assert_eq!(
        macd(&data, 2, 4, 3, &mut line, &mut signal, &mut histogram, &mut fast, &mut slow),
        Ok(())
    );
    let warmup = 4 + 3 - 2;
    assert!(line[warmup - 1].0.is_nan());
    assert!(line[warmup].0.is_finite());
    let mut state = (fast[warmup], slow[warmup], signal[warmup]);
    for i in warmup + 1..n {
        let step = macd_inc(data[i], state.0, state.1, state.2, 2, 4, 3).unwrap();
        assert_eq!(step, (line[i], signal[i], histogram[i], fast[i], slow[i]));
        state = (step.3, step.4, step.1);
    }
}

#[test]
fn macd_step_on_given_state() {
    // fast: 2/3 * 10 + 1/3 * 4 = 8; slow: 1/2 * 10 + 1/2 * 6 = 8; line 0;
    // signal: 2/3 * 0 + 1/3 * 3 = 1; histogram -1.
    let step = macd_inc(Real(10.0), Real(4.0), Real(6.0), Real(3.0), 2, 3, 2).unwrap();
    assert!(close_to(step.0, 0.0));
    assert!(close_to(step.1, 1.0));
    assert!(close_to(step.2, -1.0));
    assert!(close_to(step.3, 8.0));
    assert!(close_to(step.4, 8.0));
}

#[test]
fn macd_rejects_bad_periods_and_writes_nothing() {
    let data = reals(&[1.0, 4.0, 2.0, 8.0, 5.0, 7.0, 3.0]);
    for (f, s, g) in [(0usize, 3usize, 2usize), (2, 0, 2), (2, 3, 0), (3, 3, 2), (4, 3, 2)] {
        let mut line = reals(&[1.0; 7]);
        let mut signal = reals(&[2.0; 7]);
        let mut histogram = reals(&[3.0; 7]);
        let mut fast = reals(&[4.0; 7]);
        let mut slow = reals(&[5.0; 7]);
        assert_eq!(
            macd(&data, f, s, g, &mut line, &mut signal, &mut histogram, &mut fast, &mut slow),
            Err(KandError::InvalidPeriod)
        );
        assert_eq!(line, reals(&[1.0; 7]));
        assert_eq!(signal, reals(&[2.0; 7]));
        assert_eq!(histogram, reals(&[3.0; 7]));
        assert_eq!(fast, reals(&[4.0; 7]));
        assert_eq!(slow, reals(&[5.0; 7]));
        assert_eq!(
            macd_inc(Real(1.0), Real(1.0), Real(1.0), Real(1.0), f, s, g),
            Err(KandError::InvalidPeriod)
        );
    }
}

#[test]
fn macd_rejects_short_and_unequal_series() {
    let data = reals(&[1.0, 4.0, 2.0]);
    let mut line = blank(3);
    let mut signal = blank(3);
    let mut histogram = blank(3);
    let mut fast = blank(3);
    let mut slow = blank(3);
    // The warm-up length is 3 + 2 - 2 = 3, and the series has 3 entries.
    assert_eq!(
        macd(&data, 2, 3, 2, &mut line, &mut signal, &mut histogram, &mut fast, &mut slow),
        Err(KandError::InsufficientData)
    );
    let mut long = blank(4);
    assert_eq!(
        macd(&data, 1, 2, 1, &mut line, &mut signal, &mut long, &mut fast, &mut slow),
        Err(KandError::LengthMismatch)
    );
    assert_eq!(
        macd(&data, 1, 2, 1, &mut line, &mut signal, &mut histogram, &mut fast, &mut slow),
        Ok(())
    );
    assert_series(&line, 1, &[1.5, -0.16666666666666696]);
    assert_series(&fast, 1, &[4.0, 2.0]);
    assert_series(&slow, 1, &[2.5, 2.166666666666667]);
}

#[test]
fn dx_series_in_floats() {
    let high = reals(&[10.0, 12.0, 15.0, 14.0, 13.0, 16.0]);
    let low = reals(&[8.0, 9.0, 11.0, 10.0, 9.0, 12.0]);
    let close = reals(&[9.0, 11.0, 14.0, 11.0, 10.0, 15.0]);
    let mut out = blank(6);
    let mut plus = blank(6);
    let mut minus = blank(6);
    let mut range = blank(6);
    assert_eq!(dx(&high, &low, &close, 2, &mut out, &mut plus, &mut minus, &mut range), Ok(()));
    assert_series(&out, 2, &[100.0, 42.857142857142854, 9.090909090909092, 65.71428571428571]);
    assert_series(&plus, 2, &[5.0, 2.5, 1.25, 3.625]);
    assert_series(&minus, 2, &[0.0, 1.0, 1.5, 0.75]);
    assert_series(&range, 2, &[7.0, 7.5, 7.75, 9.875]);
}

#[test]
fn dx_of_the_documented_bars() {
    let high = reals(&[24.20, 24.07, 24.04, 23.87, 23.67]);
    let low = reals(&[23.85, 23.72, 23.64, 23.37, 23.46]);
    let close = reals(&[23.89, 23.95, 23.67, 23.78, 23.50]);
    let mut out = blank(5);
    let mut plus = blank(5);
    let mut minus = blank(5);
    let mut range = blank(5);
    assert_eq!(dx(&high, &low, &close, 3, &mut out, &mut plus, &mut minus, &mut range), Ok(()));
    assert_series(&out, 3, &[100.0, 100.0]);
    assert_series(&plus, 3, &[0.0, 0.0]);
    assert_series(&minus, 3, &[0.4800000000000004, 0.3200000000000003]);
    assert_series(&range, 3, &[1.25, 1.1533333333333335]);
}

#[test]
fn dx_steps_reproduce_the_series() {
    let high = reals(&[10.0, 12.0, 15.0, 14.0, 13.0, 16.0, 15.5, 17.0]);
    let low = reals(&[8.0, 9.0, 11.0, 10.0, 9.0, 12.0, 11.0, 13.5]);
    let close = reals(&[9.0, 11.0, 14.0, 11.0, 10.0, 15.0, 12.0, 16.0]);
    let n = high.len();
    let mut out = blank(n);
    let mut plus = blank(n);
    let mut minus = blank(n);
    let mut range = blank(n);
    assert_eq!(dx(&high, &low, &close, 3, &mut out, &mut plus, &mut minus, &mut range), Ok(()));
    assert!(out[2].0.is_nan());
    assert!(out[3].0.is_finite());
    let mut state = (plus[3], minus[3], range[3]);
    for i in 4..n {
        let step = dx_incremental(
            high[i],
            low[i],
            high[i - 1],
            low[i - 1],
            close[i - 1],
            state.0,
            state.1,
            state.2,
            3,
        )
        .unwrap();
        assert_eq!(step, (out[i], plus[i], minus[i], range[i]));
        assert!(0.0 <= step.0 .0 && step.0 .0 <= 100.0);
        state = (step.1, step.2, step.3);
    }
}

#[test]
fn dx_is_zero_when_nothing_moves() {
    let flat = reals(&[5.0, 5.0, 5.0, 5.0]);
    let mut out = blank(4);
    let mut plus = blank(4);
    let mut minus = blank(4);
    let mut range = blank(4);
    assert_eq!(dx(&flat, &flat, &flat, 2, &mut out, &mut plus, &mut minus, &mut range), Ok(()));
    assert_series(&out, 2, &[0.0, 0.0]);
    assert_series(&plus, 2, &[0.0, 0.0]);
    assert_series(&minus, 2, &[0.0, 0.0]);
    assert_eq!(dx_value(Real(0.0), Real(0.0)), Real(0.0));
}

#[test]
fn dx_rejects_bad_arguments_and_writes_nothing() {
    let high = reals(&[10.0, 12.0, 15.0]);
    let low = reals(&[8.0, 9.0, 11.0]);
    let close = reals(&[9.0, 11.0, 14.0]);
    let mut out = reals(&[1.0; 3]);
    let mut plus = reals(&[2.0; 3]);
    let mut minus = reals(&[3.0; 3]);
    let mut range = reals(&[4.0; 3]);
    assert_eq!(
        dx(&high, &low, &close, 0, &mut out, &mut plus, &mut minus, &mut range),
        Err(KandError::InvalidPeriod)
    );
    assert_eq!(
        dx(&high, &low, &close, 3, &mut out, &mut plus, &mut minus, &mut range),
        Err(KandError::InsufficientData)
    );
    assert_eq!(
        dx(&high, &low[..2], &close, 2, &mut out, &mut plus, &mut minus, &mut range),
        Err(KandError::LengthMismatch)
    );
    assert_eq!(out, reals(&[1.0; 3]));
    assert_eq!(plus, reals(&[2.0; 3]));
    assert_eq!(minus, reals(&[3.0; 3]));
    assert_eq!(range, reals(&[4.0; 3]));
    assert_eq!(
        dx_incremental(
            Real(1.0),
            Real(1.0),
            Real(1.0),
            Real(1.0),
            Real(1.0),
            Real(1.0),
            Real(1.0),
            Real(1.0),
            0
        ),
        Err(KandError::InvalidPeriod)
    );
}

#[test]
fn dx_step_on_given_state() {
    // up = 2, down = -1: plus movement 2, minus movement 0; true range
    // max(3, |12 - 9|, |9 - 9|) = 3. Smoothing with period 4:
    // 8 - 2 + 2 = 8, 4 - 1 + 0 = 3, 12 - 3 + 3 = 12. Index 100 * 5 / 11.
    let step = dx_incremental(
        Real(12.0),
        Real(9.0),
        Real(10.0),
        Real(8.0),
        Real(9.0),
        Real(8.0),
        Real(4.0),
        Real(12.0),
        4,
    )
    .unwrap();
    assert_eq!(step.1, Real(8.0));
    assert_eq!(step.2, Real(3.0));
    assert_eq!(step.3, Real(12.0));
    assert!(close_to(step.0, 500.0 / 11.0));
}

#[test]
fn movements_and_true_range_of_two_bars() {
    assert_eq!(plus_dm(Real(12.0), Real(10.0), Real(9.0), Real(8.0)), Real(2.0));
    assert_eq!(minus_dm(Real(12.0), Real(10.0), Real(9.0), Real(8.0)), Real(0.0));
    assert_eq!(plus_dm(Real(10.0), Real(10.5), Real(7.0), Real(8.0)), Real(0.0));
    assert_eq!(minus_dm(Real(10.0), Real(10.5), Real(7.0), Real(8.0)), Real(1.0));
    // Equal moves cancel.
    assert_eq!(plus_dm(Real(11.0), Real(10.0), Real(7.0), Real(8.0)), Real(0.0));
    assert_eq!(minus_dm(Real(11.0), Real(10.0), Real(7.0), Real(8.0)), Real(0.0));
    assert_eq!(true_range(Real(12.0), Real(9.0), Real(9.0)), Real(3.0));
    assert_eq!(true_range(Real(12.0), Real(11.0), Real(8.0)), Real(4.0));
    assert_eq!(true_range(Real(12.0), Real(11.0), Real(15.0)), Real(4.0));
}

#[test]
fn smoothing_steps_in_floats() {
    // a = 2 / (3 + 1) = 0.5: 0.5 * 10 + 0.5 * 4.
    assert_eq!(ema_step(Real(10.0), Real(4.0), 3), Real(7.0));
    // 8 - 8 / 4 + 3.
    assert_eq!(wilder_step(Real(3.0), Real(8.0), 4), Real(9.0));
}

#[test]
fn window_statistics_in_floats() {
    let xs = reals(&[3.0, 1.0, 4.0, 1.5, 9.0, 2.0]);
    assert_eq!(window_sum(&xs, 1, 3), Real(6.5));
    assert_eq!(window_sum(&xs, 2, 0), Real(0.0));
    assert_eq!(window_mean(&xs, 0, 4), Real(2.375));
    assert_eq!(window_highest(&xs, 0, 4), Real(4.0));
    assert_eq!(window_lowest(&xs, 2, 4), Real(1.5));
    assert_eq!(window_highest(&xs, 5, 1), Real(2.0));
    assert_eq!(larger(Real(1.0), Real(2.0)), Real(2.0));
    assert_eq!(smaller(Real(1.0), Real(2.0)), Real(1.0));
    assert_eq!(magnitude(Real(-2.5)), Real(2.5));
    assert_eq!(magnitude(Real(2.5)), Real(2.5));
}

#[test]
fn regression_line_in_floats() {
    let xs = reals(&[0.0, 1.0, 3.0, 5.0, 7.0]);
    assert_eq!(regression_sums(&xs, 1, 4), (Real(6.0), Real(14.0), Real(16.0), Real(34.0)));
    assert_eq!(regression_line(&xs, 1, 4), (Real(2.0), Real(1.0)));
    let ys = reals(&[2.0, 2.0, 5.0]);
    assert_eq!(regression_line(&ys, 0, 3), (Real(1.5), Real(1.5)));
}

#[test]
fn filled_series() {
    assert_eq!(filled(3, Real(2.5)), reals(&[2.5, 2.5, 2.5]));
    assert_eq!(filled(0, Real(2.5)), Vec::<Real>::new());
}

#[test]
fn new_series_hold_what_the_buffers_would() {
    let high = reals(&[10.0, 12.0, 15.0, 14.0, 13.0, 16.0]);
    let low = reals(&[8.0, 9.0, 11.0, 10.0, 9.0, 12.0]);
    let close = reals(&[9.0, 11.0, 14.0, 11.0, 10.0, 15.0]);
    let n = high.len();

    let mut a = blank(n);
    assert_eq!(wclprice(&high, &low, &close, &mut a), Ok(()));
    assert_eq!(wclprice_to_vec(&high, &low, &close), Ok(a));

    let (mid, highest, lowest) = midprice_to_vec(&high, &low, 3).unwrap();
    assert_series(&mid, 2, &[11.5, 12.0, 12.0, 12.5]);
    assert_series(&highest, 2, &[15.0, 15.0, 15.0, 16.0]);
    assert_series(&lowest, 2, &[8.0, 9.0, 9.0, 9.0]);

    let (out, plus, minus, range) = dx_to_vec(&high, &low, &close, 2).unwrap();
    assert_series(&out, 2, &[100.0, 42.857142857142854, 9.090909090909092, 65.71428571428571]);
    assert_series(&plus, 2, &[5.0, 2.5, 1.25, 3.625]);
    assert_series(&minus, 2, &[0.0, 1.0, 1.5, 0.75]);
    assert_series(&range, 2, &[7.0, 7.5, 7.75, 9.875]);

    let data = reals(&[1.0, 4.0, 2.0, 8.0, 5.0, 7.0, 3.0]);
    let (line, signal, histogram, fast, slow) = macd_to_vec(&data, 2, 3, 2).unwrap();
    assert_series(
        &line,
        3,
        &[0.8888888888888884, 0.26851851851851727, 0.4089506172839501, -0.37062757201646157],
    );
    assert_series(
        &signal,
        3,
        &[0.36111111111111094, 0.2993827160493818, 0.372427983539094, -0.12294238683127634],
    );
    assert_series(
        &histogram,
        3,
        &[0.5277777777777775, -0.030864197530864557, 0.03652263374485609, -0.24768518518518523],
    );
    assert_series(
        &fast,
        3,
        &[6.055555555555555, 5.351851851851851, 6.450617283950617, 4.150205761316872],
    );
    assert_series(
        &slow,
        3,
        &[5.166666666666667, 5.083333333333334, 6.041666666666667, 4.520833333333334],
    );
}

#[test]
fn new_series_are_refused_like_the_buffers() {
    let high = reals(&[10.0, 12.0, 15.0]);
    let low = reals(&[8.0, 9.0]);
    assert_eq!(wclprice_to_vec(&high, &low, &high), Err(KandError::LengthMismatch));
    assert_eq!(wclprice_to_vec(&low[..0], &low[..0], &low[..0]), Err(KandError::InsufficientData));
    assert_eq!(midprice_to_vec(&high, &high, 1).err(), Some(KandError::InvalidPeriod));
    assert_eq!(midprice_to_vec(&high, &low, 2).err(), Some(KandError::LengthMismatch));
    assert_eq!(midprice_to_vec(&high, &high, 4).err(), Some(KandError::InsufficientData));
    assert_eq!(dx_to_vec(&high, &high, &high, 0).err(), Some(KandError::InvalidPeriod));
    assert_eq!(dx_to_vec(&high, &high, &low, 2).err(), Some(KandError::LengthMismatch));
    assert_eq!(dx_to_vec(&high, &high, &high, 3).err(), Some(KandError::InsufficientData));
    assert_eq!(macd_to_vec(&high, 3, 2, 1).err(), Some(KandError::InvalidPeriod));
    assert_eq!(macd_to_vec(&high, 2, 3, 2).err(), Some(KandError::InsufficientData));
}
