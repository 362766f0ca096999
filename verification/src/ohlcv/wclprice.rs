//! Weighted close price: `(2 * close + high + low) / 4` at every index.
//!
//! The indicator carries no state and has no warm-up: the step form is the
//! formula itself.

use crate::error::KandError;
use crate::kernels::filled;
use crate::scalar::Scalar;
use crate::validation::{check_enough_data, check_same_length};
use vstd::prelude::*;

verus! {

/// The weighted close of one bar.
pub open spec fn weighted_close<T: Scalar>(high: T, low: T, close: T) -> T {
    T::from_count_spec(2).times(close).plus(high).plus(low).over(T::from_count_spec(4))
}

/// The number of leading indices without a value: none.
pub open spec fn warmup_length_spec() -> usize {
    0
}

/// The verdict on the sizes handed to [`wclprice`].
pub open spec fn verdict(high_len: usize, low_len: usize, close_len: usize, output_len: usize)
    -> Result<(), KandError> {
    if low_len != high_len || close_len != high_len || output_len != high_len {
        Err(KandError::LengthMismatch)
    } else if high_len <= warmup_length_spec() {
        Err(KandError::InsufficientData)
    } else {
        Ok(())
    }
}

/// The weighted close of every bar of a series.
pub open spec fn series<T: Scalar>(high: Seq<T>, low: Seq<T>, close: Seq<T>) -> Seq<T> {
    Seq::new(high.len(), |i: int| weighted_close(high[i], low[i], close[i]))
}

/// The number of leading indices without a value.
pub fn warmup_length() -> (r: usize)
    ensures
        r == warmup_length_spec(),
{
    0
}

/// Judges the sizes of a call of [`wclprice`] without touching any series.
pub fn validate(high_len: usize, low_len: usize, close_len: usize, output_len: usize) -> (r: Result<
    (),
    KandError,
>)
    ensures
        r == verdict(high_len, low_len, close_len, output_len),
{
    check_same_length(high_len, low_len)?;
    check_same_length(high_len, close_len)?;
    check_same_length(high_len, output_len)?;
    check_enough_data(high_len, warmup_length())
}

/// Computes the weighted close of the newest bar.
pub fn wclprice_inc<T: Scalar>(high: T, low: T, close: T) -> (r: Result<T, KandError>)
    ensures
        r == Ok::<T, KandError>(weighted_close(high, low, close)),
{
    Ok(T::from_count(2).times(close).plus(high).plus(low).over(T::from_count(4)))
}

/// Fills `output` with the weighted close of every bar.
///
/// The four series must have one length, which must not be zero; otherwise
/// the call is rejected and `output` is left as it was.
pub fn wclprice<T: Scalar>(high: &[T], low: &[T], close: &[T], output: &mut [T]) -> (r: Result<
    (),
    KandError,
>)
    ensures
        r == verdict(high.len(), low.len(), close.len(), old(output).len()),
        final(output)@.len() == old(output)@.len(),
        r.is_ok() ==> final(output)@.len() == high@.len(),
        r.is_ok() ==> final(output)@ == series(high@, low@, close@),
        r.is_err() ==> final(output)@ == old(output)@,
{
    let len = high.len();
    validate(len, low.len(), close.len(), output.len())?;
    let two = T::from_count(2);
    let four = T::from_count(4);
    let mut i: usize = 0;
    while i < len
        invariant
            i <= len,
            len == high.len(),
            len == low.len(),
            len == close.len(),
            len == output.len(),
            two == T::from_count_spec(2),
            four == T::from_count_spec(4),
            forall|j: int|
                0 <= j < i ==> output@[j] == weighted_close(high@[j], low@[j], close@[j]),
        decreases len - i,
    {
        let v = two.times(close[i]).plus(high[i]).plus(low[i]).over(four);
        output[i] = v;
        i += 1;
    }
    Ok(())
}

/// Computes the weighted close of every bar into a new series.
///
/// The three series must have one length, which must not be zero.
pub fn wclprice_to_vec<T: Scalar>(high: &[T], low: &[T], close: &[T]) -> (r: Result<
    Vec<T>,
    KandError,
>)
    ensures
        match r {
            Ok(output) => {
                &&& verdict(high.len(), low.len(), close.len(), high.len()) is Ok
                &&& output@ == series(high@, low@, close@)
            },
            Err(e) => verdict(high.len(), low.len(), close.len(), high.len()) == Err::<
                (),
                KandError,
            >(e),
        },
{
    let mut output = filled(high.len(), T::undefined());
    wclprice(high, low, close, output.as_mut_slice())?;
    Ok(output)
}

/// The step form and the whole-series form agree: at every index the series
/// holds what a step on that bar returns, and it is as long as its input.
pub proof fn lemma_step_matches_series<T: Scalar>(high: Seq<T>, low: Seq<T>, close: Seq<T>, i: int)
    requires
        low.len() == high.len(),
        close.len() == high.len(),
        0 <= i < high.len(),
    ensures
        series(high, low, close).len() == high.len(),
        series(high, low, close)[i] == weighted_close(high[i], low[i], close[i]),
{
}

/// Asking for the verdict twice gives it twice: whatever two calls of
/// [`validate`] with the same sizes return, the two results are equal.
pub proof fn lemma_validate_repeats(
    high_len: usize,
    low_len: usize,
    close_len: usize,
    output_len: usize,
    first: Result<(), KandError>,
    second: Result<(), KandError>,
)
    requires
        call_ensures(validate, (high_len, low_len, close_len, output_len), first),
        call_ensures(validate, (high_len, low_len, close_len, output_len), second),
    ensures
        first == second,
{
}

} // verus!
