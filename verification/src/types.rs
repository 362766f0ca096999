//! The closed enumerations that indicators accept or emit, each with its
//! table of integer codes.

use crate::error::KandError;
use vstd::prelude::*;

verus! {

/// The kind of moving average an indicator is asked to use.
#[derive(Debug, Clone, Copy, PartialEq, Eq, Structural)]
pub enum MAType {
    /// Double exponential moving average.
    DEMA,
    /// Exponential moving average.
    EMA,
    /// Kaufman adaptive moving average.
    KAMA,
    /// MESA adaptive moving average.
    MAMA,
    /// Wilder's smoothed moving average.
    RMA,
    /// Simple moving average.
    SMA,
    /// Triple exponential moving average (T3).
    T3,
    /// Triple exponential moving average.
    TEMA,
    /// Triangular moving average.
    TRIMA,
    /// Weighted moving average.
    WMA,
}

impl MAType {
    /// The integer code of a kind.
    pub open spec fn code(self) -> int {
        match self {
            MAType::DEMA => 0,
            MAType::EMA => 1,
            MAType::KAMA => 2,
            MAType::MAMA => 3,
            MAType::RMA => 4,
            MAType::SMA => 5,
            MAType::T3 => 6,
            MAType::TEMA => 7,
            MAType::TRIMA => 8,
            MAType::WMA => 9,
        }
    }

    /// The kind that a code stands for, if any.
    pub open spec fn from_code(code: int) -> Option<MAType> {
        if code == 0 {
            Some(MAType::DEMA)
        } else if code == 1 {
            Some(MAType::EMA)
        } else if code == 2 {
            Some(MAType::KAMA)
        } else if code == 3 {
            Some(MAType::MAMA)
        } else if code == 4 {
            Some(MAType::RMA)
        } else if code == 5 {
            Some(MAType::SMA)
        } else if code == 6 {
            Some(MAType::T3)
        } else if code == 7 {
            Some(MAType::TEMA)
        } else if code == 8 {
            Some(MAType::TRIMA)
        } else if code == 9 {
            Some(MAType::WMA)
        } else {
            None
        }
    }

    /// Every kind is found again from its code, and a code names at most
    /// the kind that carries it.
    pub proof fn lemma_code_round_trip(kind: MAType, code: int)
        ensures
            MAType::from_code(kind.code()) == Some(kind),
            MAType::from_code(code) == Some(kind) <==> kind.code() == code,
            0 <= kind.code() <= 9,
    {
    }
}

impl Default for MAType {
    /// The simple moving average.
    fn default() -> (r: Self)
        ensures
            r == MAType::SMA,
    {
        MAType::SMA
    }
}

impl From<MAType> for i32 {
    fn from(kind: MAType) -> (r: i32) {
        match kind {
            MAType::DEMA => 0,
            MAType::EMA => 1,
            MAType::KAMA => 2,
            MAType::MAMA => 3,
            MAType::RMA => 4,
            MAType::SMA => 5,
            MAType::T3 => 6,
            MAType::TEMA => 7,
            MAType::TRIMA => 8,
            MAType::WMA => 9,
        }
    }
}

impl vstd::std_specs::convert::FromSpecImpl<MAType> for i32 {
    open spec fn obeys_from_spec() -> bool {
        true
    }

    open spec fn from_spec(kind: MAType) -> i32 {
        kind.code() as i32
    }
}

impl TryFrom<i32> for MAType {
    type Error = KandError;

    fn try_from(code: i32) -> (r: Result<MAType, KandError>) {
        match code {
            0 => Ok(MAType::DEMA),
            1 => Ok(MAType::EMA),
            2 => Ok(MAType::KAMA),
            3 => Ok(MAType::MAMA),
            4 => Ok(MAType::RMA),
            5 => Ok(MAType::SMA),
            6 => Ok(MAType::T3),
            7 => Ok(MAType::TEMA),
            8 => Ok(MAType::TRIMA),
            9 => Ok(MAType::WMA),
            _ => Err(KandError::InvalidParameter),
        }
    }
}

impl vstd::std_specs::convert::TryFromSpecImpl<i32> for MAType {
    open spec fn obeys_try_from_spec() -> bool {
        true
    }

    open spec fn try_from_spec(code: i32) -> Result<MAType, KandError> {
        match MAType::from_code(code as int) {
            Some(kind) => Ok(kind),
            None => Err(KandError::InvalidParameter),
        }
    }
}

/// The reading that a pattern or signal indicator emits.
#[derive(Debug, Clone, Copy, PartialEq, Eq, Structural)]
pub enum Signal {
    /// Strong upward potential.
    Bullish,
    /// Moderate signal strength.
    Balance,
    /// Strong downward potential.
    Bearish,
    /// No clear directional bias.
    Neutral,
    /// A pattern was detected.
    Pattern,
    /// No valid reading.
    Invalid,
}

impl Signal {
    /// The integer code of a reading.
    pub open spec fn code(self) -> int {
        match self {
            Signal::Bullish => 100,
            Signal::Balance => 50,
            Signal::Bearish => -100,
            Signal::Neutral => 0,
            Signal::Pattern => 1,
            Signal::Invalid => -1,
        }
    }

    /// The reading that a code stands for, if any.
    pub open spec fn from_code(code: int) -> Option<Signal> {
        if code == 100 {
            Some(Signal::Bullish)
        } else if code == 50 {
            Some(Signal::Balance)
        } else if code == -100 {
            Some(Signal::Bearish)
        } else if code == 0 {
            Some(Signal::Neutral)
        } else if code == 1 {
            Some(Signal::Pattern)
        } else if code == -1 {
            Some(Signal::Invalid)
        } else {
            None
        }
    }

    /// Every reading is found again from its code, and a code names at most
    /// the reading that carries it.
    pub proof fn lemma_code_round_trip(signal: Signal, code: int)
        ensures
            Signal::from_code(signal.code()) == Some(signal),
            Signal::from_code(code) == Some(signal) <==> signal.code() == code,
            -100 <= signal.code() <= 100,
    {
    }
}

impl Default for Signal {
    /// The neutral reading.
    fn default() -> (r: Self)
        ensures
            r == Signal::Neutral,
    {
        Signal::Neutral
    }
}

impl From<Signal> for i32 {
    fn from(signal: Signal) -> (r: i32) {
        match signal {
            Signal::Bullish => 100,
            Signal::Balance => 50,
            Signal::Bearish => -100,
            Signal::Neutral => 0,
            Signal::Pattern => 1,
            Signal::Invalid => -1,
        }
    }
}

impl vstd::std_specs::convert::FromSpecImpl<Signal> for i32 {
    open spec fn obeys_from_spec() -> bool {
        true
    }

    open spec fn from_spec(signal: Signal) -> i32 {
        signal.code() as i32
    }
}

impl TryFrom<i32> for Signal {
    type Error = KandError;

    fn try_from(code: i32) -> (r: Result<Signal, KandError>) {
        match code {
            100 => Ok(Signal::Bullish),
            50 => Ok(Signal::Balance),
            -100 => Ok(Signal::Bearish),
            0 => Ok(Signal::Neutral),
            1 => Ok(Signal::Pattern),
            -1 => Ok(Signal::Invalid),
            _ => Err(KandError::InvalidParameter),
        }
    }
}

impl vstd::std_specs::convert::TryFromSpecImpl<i32> for Signal {
    open spec fn obeys_try_from_spec() -> bool {
        true
    }

    open spec fn try_from_spec(code: i32) -> Result<Signal, KandError> {
        match Signal::from_code(code as int) {
            Some(signal) => Ok(signal),
            None => Err(KandError::InvalidParameter),
        }
    }
}

} // verus!
