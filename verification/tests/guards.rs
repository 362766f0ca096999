use kand::error::KandError;
use kand::ohlcv::{dx, macd, midprice, wclprice};
use kand::validation::{check_enough_data, check_period, check_same_length};

#[test]
fn period_guard() {
    assert_eq!(check_period(0, 0), Err(KandError::InvalidPeriod));
    assert_eq!(check_period(0, 1), Err(KandError::InvalidPeriod));
    assert_eq!(check_period(1, 1), Ok(()));
    assert_eq!(check_period(1, 2), Err(KandError::InvalidPeriod));
    assert_eq!(check_period(2, 2), Ok(()));
    assert_eq!(check_period(usize::MAX, 2), Ok(()));
}

#[test]
fn length_guard() {
    assert_eq!(check_same_length(3, 3), Ok(()));
    assert_eq!(check_same_length(0, 0), Ok(()));
    assert_eq!(check_same_length(3, 2), Err(KandError::LengthMismatch));
    assert_eq!(check_same_length(2, 3), Err(KandError::LengthMismatch));
}

#[test]
fn data_guard() {
    assert_eq!(check_enough_data(0, 0), Err(KandError::InsufficientData));
    assert_eq!(check_enough_data(1, 0), Ok(()));
    assert_eq!(check_enough_data(5, 5), Err(KandError::InsufficientData));
    assert_eq!(check_enough_data(6, 5), Ok(()));
    assert_eq!(check_enough_data(5, 6), Err(KandError::InsufficientData));
}

#[test]
fn warmup_lengths() {
    assert_eq!(wclprice::warmup_length(), 0);
    assert_eq!(midprice::warmup_length(3), Ok(2));
    assert_eq!(midprice::warmup_length(2), Ok(1));
    assert_eq!(midprice::warmup_length(1), Err(KandError::InvalidPeriod));
    assert_eq!(midprice::warmup_length(0), Err(KandError::InvalidPeriod));
    assert_eq!(dx::warmup_length(14), Ok(14));
    assert_eq!(dx::warmup_length(1), Ok(1));
    assert_eq!(dx::warmup_length(0), Err(KandError::InvalidPeriod));
    assert_eq!(macd::warmup_length(12, 26, 9), Ok(33));
    assert_eq!(macd::warmup_length(1, 2, 1), Ok(1));
    assert_eq!(macd::warmup_length(26, 12, 9), Err(KandError::InvalidPeriod));
    assert_eq!(macd::warmup_length(12, 12, 9), Err(KandError::InvalidPeriod));
    assert_eq!(macd::warmup_length(0, 26, 9), Err(KandError::InvalidPeriod));
    assert_eq!(macd::warmup_length(12, 26, 0), Err(KandError::InvalidPeriod));
}

#[test]
fn weighted_close_verdicts() {
    assert_eq!(wclprice::validate(3, 3, 3, 3), Ok(()));
    assert_eq!(wclprice::validate(3, 2, 3, 3), Err(KandError::LengthMismatch));
    assert_eq!(wclprice::validate(3, 3, 4, 3), Err(KandError::LengthMismatch));
    assert_eq!(wclprice::validate(3, 3, 3, 0), Err(KandError::LengthMismatch));
    assert_eq!(wclprice::validate(0, 0, 0, 0), Err(KandError::InsufficientData));
}

#[test]
fn midpoint_verdicts_in_order_of_precedence() {
    assert_eq!(midprice::validate(5, 5, 3, 5, 5, 5), Ok(()));
    assert_eq!(midprice::validate(3, 3, 3, 3, 3, 3), Ok(()));
    assert_eq!(midprice::validate(2, 2, 3, 2, 2, 2), Err(KandError::InsufficientData));
    assert_eq!(midprice::validate(5, 4, 3, 5, 5, 5), Err(KandError::LengthMismatch));
    assert_eq!(midprice::validate(5, 5, 3, 5, 5, 6), Err(KandError::LengthMismatch));
    // A bad period is reported before anything else.
    assert_eq!(midprice::validate(5, 4, 1, 5, 5, 5), Err(KandError::InvalidPeriod));
    assert_eq!(midprice::validate(0, 0, 0, 0, 0, 0), Err(KandError::InvalidPeriod));
    // Unequal lengths are reported before a short series.
    assert_eq!(midprice::validate(2, 1, 3, 2, 2, 2), Err(KandError::LengthMismatch));
}

#[test]
fn macd_verdicts_in_order_of_precedence() {
    assert_eq!(macd::validate(34, 12, 26, 9, 34, 34, 34, 34, 34), Ok(()));
    assert_eq!(
        macd::validate(33, 12, 26, 9, 33, 33, 33, 33, 33),
        Err(KandError::InsufficientData)
    );
    assert_eq!(macd::validate(10, 12, 26, 9, 10, 10, 10, 10, 10), Err(KandError::InsufficientData));
    assert_eq!(macd::validate(34, 12, 26, 9, 34, 34, 33, 34, 34), Err(KandError::LengthMismatch));
    assert_eq!(macd::validate(34, 26, 12, 9, 34, 34, 33, 34, 34), Err(KandError::InvalidPeriod));
    assert_eq!(macd::validate(3, 12, 26, 9, 3, 3, 4, 3, 3), Err(KandError::LengthMismatch));
    assert_eq!(macd::validate_periods(12, 26, 9), Ok(()));
    assert_eq!(macd::validate_periods(1, 2, 1), Ok(()));
    assert_eq!(macd::validate_periods(2, 2, 1), Err(KandError::InvalidPeriod));
    // Periods at the edge of the machine's range are judged without
    // leaving it.
    assert_eq!(
        macd::validate(10, 1, usize::MAX, usize::MAX, 10, 10, 10, 10, 10),
        Err(KandError::InsufficientData)
    );
}

#[test]
fn dx_verdicts_in_order_of_precedence() {
    assert_eq!(dx::validate(15, 15, 15, 14, 15, 15, 15, 15), Ok(()));
    assert_eq!(dx::validate(14, 14, 14, 14, 14, 14, 14, 14), Err(KandError::InsufficientData));
    assert_eq!(dx::validate(15, 15, 14, 14, 15, 15, 15, 15), Err(KandError::LengthMismatch));
    assert_eq!(dx::validate(15, 15, 15, 14, 15, 15, 15, 16), Err(KandError::LengthMismatch));
    assert_eq!(dx::validate(15, 15, 14, 0, 15, 15, 15, 15), Err(KandError::InvalidPeriod));
    assert_eq!(dx::validate(3, 2, 3, 14, 3, 3, 3, 3), Err(KandError::LengthMismatch));
}

#[test]
fn asking_twice_gives_the_same_verdict() {
    for period in 0..6usize {
        for len in 0..6usize {
            for other in 0..6usize {
                assert_eq!(
                    midprice::validate(len, other, period, len, len, len),
                    midprice::validate(len, other, period, len, len, len)
                );
                assert_eq!(
                    dx::validate(len, other, len, period, len, len, len, len),
                    dx::validate(len, other, len, period, len, len, len, len)
                );
                assert_eq!(
                    macd::validate(len, period, other, 2, len, len, len, len, len),
                    macd::validate(len, period, other, 2, len, len, len, len, len)
                );
                assert_eq!(
                    wclprice::validate(len, other, len, len),
                    wclprice::validate(len, other, len, len)
                );
            }
        }
    }
}
