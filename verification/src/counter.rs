//! The counter role: a held raw count, refreshed from a reader and read out
//! as a measure.

use vstd::prelude::*;
use crate::reader::CountReader;

verus! {

/// The raw data of a counter: what its reader samples.
#[allow(type_alias_bounds)]
pub type CountRaw<C: Counter> = <<C as Counter>::Reader as CountReader>::RawData;

/// Whether `sample` is an outcome that the reader `R` can deliver: a raw count
/// that a `read` may return, or an error that it may fail with.
pub open spec fn can_read<R: CountReader>(sample: Result<R::RawData, R::ReadErr>) -> bool {
    call_ensures(R::read, (), sample)
}

/// The types and operations of a driver that counts.
///
/// A counter holds one raw count, the last it took in, and turns raw counts
/// into measures at a resolution that its type fixes. The held count changes
/// only when an update succeeds; an operation that fails leaves the counter
/// exactly as it was.
pub trait Counter: Sized {
    /// Where fresh raw counts come from.
    type Reader: CountReader;

    /// The magnitude of what each count measures, fixed at build time: for
    /// instance one part in ten thousand of a second for a 10 kHz oscillator,
    /// or one part in 4096 of a turn for a 1024 PPR quadrature encoder.
    type Resolution;

    /// What is being measured: turns, radians, milliseconds, metres.
    type Measure;

    /// The raw count that the counter holds.
    spec fn count_state(&self) -> CountRaw<Self>;

    /// The measure that a raw count stands for. It depends on the raw count
    /// alone: converting the same count again gives the same measure.
    spec fn measure_of(raw: CountRaw<Self>) -> Self::Measure;

    /// Takes `count` in as the held count. Where the counter refuses it, the
    /// counter is left unchanged.
    fn update_count_state(&mut self, count: CountRaw<Self>) -> (outcome: Result<
        (),
        <Self::Reader as CountReader>::ReadErr,
    >)
        ensures
            outcome is Ok ==> final(self).count_state() == count,
            outcome is Err ==> *final(self) == *old(self),
    ;

    /// The held raw count.
    fn read_count_state(&self) -> (raw: &CountRaw<Self>)
        ensures
            *raw == self.count_state(),
    ;

    /// Refreshes the held count by one read. On success the counter holds the
    /// raw count that was read; on failure it returns the reader's error and
    /// is left unchanged.
    fn try_update_count(&mut self) -> (outcome: Result<(), <Self::Reader as CountReader>::ReadErr>)
        ensures
            match outcome {
                Ok(()) => can_read::<Self::Reader>(Ok(final(self).count_state())),
                Err(error) => (can_read::<Self::Reader>(Err(error)) && *final(self) == *old(self)),
            },
    ;

    /// Reads a fresh raw count and measures it, passing the held count by:
    /// the counter is neither consulted nor changed. Fails exactly when the
    /// read fails.
    fn try_read_measure(&self) -> (outcome: Result<
        Self::Measure,
        <Self::Reader as CountReader>::ReadErr,
    >)
        ensures
            match outcome {
                Ok(measure) => exists|raw: CountRaw<Self>| #[trigger]
                    can_read::<Self::Reader>(Ok(raw)) && measure == Self::measure_of(raw),
                Err(error) => can_read::<Self::Reader>(Err(error)),
            },
    ;

    /// The measure of the held count.
    fn measure_count_state(&self) -> (measure: Self::Measure)
        ensures
            measure == Self::measure_of(self.count_state()),
    ;

    /// Takes in a raw count that arrived by another way than a read, from an
    /// interrupt handler for instance, and returns its measure. Where the
    /// counter refuses the count, the counter is left unchanged.
    fn try_update_and_measure(&mut self, count: &CountRaw<Self>) -> (outcome: Result<
        Self::Measure,
        <Self::Reader as CountReader>::ReadErr,
    >)
        ensures
            match outcome {
                Ok(measure) => (final(self).count_state() == *count
                    && measure == Self::measure_of(*count)),
                Err(_) => *final(self) == *old(self),
            },
    ;

    /// Reads a raw count and measures it in one step, with no counter at
    /// hand. Fails exactly when the read fails.
    fn direct_measure() -> (outcome: Result<Self::Measure, <Self::Reader as CountReader>::ReadErr>)
        ensures
            match outcome {
                Ok(measure) => exists|raw: CountRaw<Self>| #[trigger]
                    can_read::<Self::Reader>(Ok(raw)) && measure == Self::measure_of(raw),
                Err(error) => can_read::<Self::Reader>(Err(error)),
            },
    {
        let sample = <Self::Reader as CountReader>::read();
        assert(can_read::<Self::Reader>(sample));
        Self::measure_sample(sample)
    }

    /// Measures a sample that has been taken: a raw count is converted, and a
    /// failure is handed on as it came, with nothing converted.
    fn measure_sample(
        sample: Result<CountRaw<Self>, <Self::Reader as CountReader>::ReadErr>,
    ) -> (outcome: Result<Self::Measure, <Self::Reader as CountReader>::ReadErr>)
        ensures
            match sample {
                Ok(raw) => outcome matches Ok(measure) && measure == Self::measure_of(raw),
                Err(error) => outcome matches Err(passed) && passed == error,
            },
    {
        match sample {
            Ok(raw) => Ok(Self::measure_count(&raw)),
            Err(error) => Err(error),
        }
    }

    /// The measure of a raw count. Total, and touches no counter.
    fn measure_count(count: &CountRaw<Self>) -> (measure: Self::Measure)
        ensures
            measure == Self::measure_of(*count),
    ;
}

} // verus!
