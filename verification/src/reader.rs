//! The capability that samples a hardware count.

use vstd::prelude::*;

verus! {

/// A source of raw counts, typically one hardware register.
///
/// The capability belongs to the type, not to a value: a peripheral's
/// counter register exists once, so `read` takes no receiver.
pub trait CountReader {
    /// Why a sample could not be taken.
    type ReadErr;

    /// The bit pattern that one sample yields.
    type RawData;

    /// Takes one sample. Nothing is promised of the outcome: it is whatever
    /// the hardware delivers at that moment, or the reason it delivered nothing.
    fn read() -> (sample: Result<Self::RawData, Self::ReadErr>);
}

} // verus!
