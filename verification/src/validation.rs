//! The guards that every indicator applies to its arguments before it
//! touches an output.
//!
//! Each guard is a function of sizes and periods alone, so asking twice
//! gives the same verdict.

use crate::error::KandError;
use vstd::prelude::*;

verus! {

/// The verdict on a period that must be at least `least`, and never zero.
pub open spec fn period_verdict(period: usize, least: usize) -> Result<(), KandError> {
    if period == 0 || period < least {
        Err(KandError::InvalidPeriod)
    } else {
        Ok(())
    }
}

/// The verdict on two series that are indexed together.
pub open spec fn length_verdict(len: usize, other: usize) -> Result<(), KandError> {
    if len != other {
        Err(KandError::LengthMismatch)
    } else {
        Ok(())
    }
}

/// The verdict on a series of `len` samples for an indicator whose first
/// value stands at index `warmup`.
pub open spec fn data_verdict(len: usize, warmup: usize) -> Result<(), KandError> {
    if len <= warmup {
        Err(KandError::InsufficientData)
    } else {
        Ok(())
    }
}

/// Rejects a period that is zero or less than `least`.
pub fn check_period(period: usize, least: usize) -> (r: Result<(), KandError>)
    ensures
        r == period_verdict(period, least),
{
    if period == 0 || period < least {
        Err(KandError::InvalidPeriod)
    } else {
        Ok(())
    }
}

/// Rejects two series of different lengths.
pub fn check_same_length(len: usize, other: usize) -> (r: Result<(), KandError>)
    ensures
        r == length_verdict(len, other),
{
    if len != other {
        Err(KandError::LengthMismatch)
    } else {
        Ok(())
    }
}

/// Rejects a series that is not longer than the warm-up length.
pub fn check_enough_data(len: usize, warmup: usize) -> (r: Result<(), KandError>)
    ensures
        r == data_verdict(len, warmup),
{
    if len <= warmup {
        Err(KandError::InsufficientData)
    } else {
        Ok(())
    }
}

/// A guard is a function of its arguments: any two results that it may
/// return for the same arguments are equal.
pub proof fn lemma_guards_repeat(
    a: usize,
    b: usize,
    first: Result<(), KandError>,
    second: Result<(), KandError>,
)
    ensures
        call_ensures(check_period, (a, b), first) && call_ensures(check_period, (a, b), second)
            ==> first == second,
        call_ensures(check_same_length, (a, b), first) && call_ensures(
            check_same_length,
            (a, b),
            second,
        ) ==> first == second,
        call_ensures(check_enough_data, (a, b), first) && call_ensures(
            check_enough_data,
            (a, b),
            second,
        ) ==> first == second,
{
}

} // verus!
