//! Indicators over open/high/low/close/volume series.
//!
//! Each module holds the whole-series form and the step form of one
//! indicator, the verdict on their arguments, and the statements that tie
//! the two forms together. [`on_fixed`] adds what holds of them on
//! [`crate::fixed::Fixed`] numbers.

pub mod dx;
pub mod macd;
pub mod midprice;
pub mod on_fixed;
pub mod wclprice;
