//! The arithmetic that the indicators are written against.
//!
//! An indicator is a fixed pattern of additions, multiplications, divisions
//! and comparisons. The library states that pattern once, for any number type
//! that offers these operations as functions of their operands, and proves
//! that the whole-series and the step-by-step forms of an indicator apply it
//! in the same way. What the operations themselves compute is the business of
//! the number type: [`crate::fixed::Fixed`] is the exact decimal type that
//! ships with the library.

use vstd::prelude::*;

verus! {

/// A number type on which the indicators can run.
///
/// Each operation comes with the mathematical function that it computes,
/// named after it with `_spec` at the end; the only thing asked of an
/// implementation is that the operation returns the value of that function.
/// No algebraic law is assumed, so rounding number types qualify. An
/// implementation in code that is not verified gives each `_spec` item the
/// body of the operation that it describes.
pub trait Scalar: Copy {
    /// The marker that fills the part of an output series for which an
    /// indicator has no value yet.
    spec fn undefined_spec() -> Self;

    /// Returns the marker for "no value".
    fn undefined() -> (r: Self)
        ensures
            r == Self::undefined_spec(),
    ;

    /// The number that stands for a count.
    spec fn from_count_spec(n: usize) -> Self;

    /// Converts a count, such as a period, to a number.
    fn from_count(n: usize) -> (r: Self)
        ensures
            r == Self::from_count_spec(n),
    ;

    /// The sum of two numbers.
    spec fn plus_spec(self, rhs: Self) -> Self;

    /// Adds two numbers.
    #[verifier::when_used_as_spec(plus_spec)]
    fn plus(self, rhs: Self) -> (r: Self)
        ensures
            r == self.plus_spec(rhs),
    ;

    /// The difference of two numbers.
    spec fn minus_spec(self, rhs: Self) -> Self;

    /// Subtracts `rhs` from `self`.
    #[verifier::when_used_as_spec(minus_spec)]
    fn minus(self, rhs: Self) -> (r: Self)
        ensures
            r == self.minus_spec(rhs),
    ;

    /// The product of two numbers.
    spec fn times_spec(self, rhs: Self) -> Self;

    /// Multiplies two numbers.
    #[verifier::when_used_as_spec(times_spec)]
    fn times(self, rhs: Self) -> (r: Self)
        ensures
            r == self.times_spec(rhs),
    ;

    /// The quotient of two numbers.
    spec fn over_spec(self, rhs: Self) -> Self;

    /// Divides `self` by `rhs`. Total: a number type decides what a division
    /// by zero yields.
    #[verifier::when_used_as_spec(over_spec)]
    fn over(self, rhs: Self) -> (r: Self)
        ensures
            r == self.over_spec(rhs),
    ;

    /// Whether `self` is strictly less than `rhs`.
    spec fn below_spec(self, rhs: Self) -> bool;

    /// Tests whether `self` is strictly less than `rhs`.
    #[verifier::when_used_as_spec(below_spec)]
    fn below(self, rhs: Self) -> (b: bool)
        ensures
            b == self.below_spec(rhs),
    ;

    /// Whether two numbers are equal as numbers.
    spec fn same_spec(self, rhs: Self) -> bool;

    /// Tests whether two numbers are equal as numbers.
    #[verifier::when_used_as_spec(same_spec)]
    fn same(self, rhs: Self) -> (b: bool)
        ensures
            b == self.same_spec(rhs),
    ;
}

} // verus!
