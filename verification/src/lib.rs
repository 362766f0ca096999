//! Technical-analysis indicators over price series.
//!
//! Every indicator comes in two forms: a whole-series form that fills
//! output series from input series, and a step form that yields the newest
//! value from the newest sample and a small state carried from the step
//! before. The two forms are built from the same kernels, and the library
//! proves that the step form, seeded from the whole-series form, reproduces
//! it index for index.
//!
//! - [`scalar`] states the arithmetic the indicators are written against,
//!   and [`fixed`] is the exact decimal number type that implements it.
//! - [`validation`] holds the guards applied before any output is written,
//!   and [`error`] the reasons for which a call is rejected.
//! - [`kernels`] holds the shared recurrences and window statistics.
//! - [`ohlcv`] holds the indicators.
//! - [`types`] holds the enumerations that indicators accept or emit.

pub mod error;
pub mod fixed;
pub mod kernels;
pub mod ohlcv;
pub mod scalar;
pub mod types;
pub mod validation;
