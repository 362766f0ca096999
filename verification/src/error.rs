//! The reasons for which a call is rejected.

use vstd::prelude::*;

verus! {

/// Why an indicator refused its arguments. Every variant is detected while
/// the arguments are validated, before any output is written.
#[derive(Debug, Clone, Copy, PartialEq, Eq, Structural)]
pub enum KandError {
    /// A period is zero or outside the range the indicator documents.
    InvalidPeriod,
    /// Two series that must be indexed together differ in length.
    LengthMismatch,
    /// The series is not longer than the warm-up length of the indicator.
    InsufficientData,
    /// A parameter other than a period lies outside its domain.
    InvalidParameter,
}

impl KandError {
    /// The text of [`KandError::message`].
    pub open spec fn message_spec(self) -> Seq<char> {
        match self {
            KandError::InvalidPeriod => "invalid period"@,
            KandError::LengthMismatch => "series lengths differ"@,
            KandError::InsufficientData => "insufficient data for the warm-up"@,
            KandError::InvalidParameter => "invalid parameter"@,
        }
    }

    /// A short description of the error for display by the caller.
    pub fn message(&self) -> (s: &'static str)
        ensures
            s@ == self.message_spec(),
    {
        match self {
            KandError::InvalidPeriod => "invalid period",
            KandError::LengthMismatch => "series lengths differ",
            KandError::InsufficientData => "insufficient data for the warm-up",
            KandError::InvalidParameter => "invalid parameter",
        }
    }
}

} // verus!
