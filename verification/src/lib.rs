//! Counting peripherals read as physical measures.
//!
//! A quadrature encoder, a pulse counter or an oscillator delivers a raw
//! count: a register value, bounded and possibly wrapping. This crate turns
//! such counts into measures (turns, seconds, metres) at a resolution that the
//! counter's type fixes, and keeps the last count taken consistent under
//! reads that can fail.
//!
//! Three roles make it up:
//!
//! - [`CountReader`] samples the hardware, and may fail;
//! - [`Ratio`] is a resolution, and converts a raw count into a [`Measure`];
//! - [`Counter`] holds the last raw count taken, refreshes it through its
//!   reader and measures it. [`ScaledCounter`] is the counter over any reader
//!   at any ratio.

pub mod counter;
pub mod laws;
pub mod measure;
pub mod protocol;
pub mod raw;
pub mod reader;
pub mod resolution;
pub mod scaled;

pub use counter::{CountRaw, Counter};
pub use measure::Measure;
pub use raw::RawCount;
pub use reader::CountReader;
pub use resolution::Ratio;
pub use scaled::ScaledCounter;
