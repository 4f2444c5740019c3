//! A counter that holds its raw count in memory and scales it by a ratio.

use vstd::prelude::*;
use std::marker::PhantomData;
use crate::counter::{can_read, Counter};
use crate::measure::Measure;
use crate::protocol::{held_after, report_of};
use crate::raw::RawCount;
use crate::reader::CountReader;
use crate::resolution::Ratio;

verus! {

/// A counter over the reader `R` at the resolution `NUM / DEN`.
///
/// It starts from a raw count of the caller's choosing, takes in every raw
/// count that it is given or that it reads, and measures a raw count as
/// `count * NUM` parts of a unit of `DEN` parts.
pub struct ScaledCounter<R: CountReader, const NUM: u32, const DEN: u32> where
    R::RawData: RawCount,
 {
    cached_raw: R::RawData,
    reader: PhantomData<R>,
}

impl<R: CountReader, const NUM: u32, const DEN: u32> ScaledCounter<R, NUM, DEN> where
    R::RawData: RawCount,
 {
    /// A counter that holds `initial` until its first update.
    pub fn new(initial: R::RawData) -> (counter: Self)
        ensures
            counter.count_state() == initial,
    {
        ScaledCounter { cached_raw: initial, reader: PhantomData }
    }

    /// Takes in a sample that has been read: a raw count replaces the held
    /// count, a failure leaves it and is reported as it came.
    pub fn take_sample(&mut self, sample: Result<R::RawData, R::ReadErr>) -> (outcome: Result<
        (),
        R::ReadErr,
    >)
        ensures
            final(self).count_state() == held_after(old(self).count_state(), sample),
            outcome == report_of(sample),
            outcome is Err ==> *final(self) == *old(self),
    {
        match sample {
            Ok(raw) => {
                self.cached_raw = raw;
                Ok(())
            },
            Err(error) => Err(error),
        }
    }

    /// A raw count that was read is applied exactly: right after the sample
    /// that holds it is taken in, the counter shows that raw count and
    /// measures as that raw count measures.
    pub proof fn lemma_sample_is_applied(
        counter: &mut Self,
        raw: R::RawData,
        shown: &R::RawData,
        measure: Measure<DEN>,
    )
        requires
            call_ensures(Self::take_sample, (counter, Ok(raw)), Ok(())),
            call_ensures(Self::read_count_state, (&*final(counter),), shown),
            call_ensures(Self::measure_count_state, (&*final(counter),), measure),
        ensures
            *shown == raw,
            measure == Ratio::<NUM, DEN>::scaled(raw.count()),
    {
    }
}

impl<R: CountReader, const NUM: u32, const DEN: u32> Counter for ScaledCounter<R, NUM, DEN> where
    R::RawData: RawCount,
 {
    type Reader = R;

    type Resolution = Ratio<NUM, DEN>;

    type Measure = Measure<DEN>;

    closed spec fn count_state(&self) -> R::RawData {
        self.cached_raw
    }

    open spec fn measure_of(raw: R::RawData) -> Measure<DEN> {
        Ratio::<NUM, DEN>::scaled(raw.count())
    }

    /// Takes `count` in. This counter refuses no raw count.
    fn update_count_state(&mut self, count: R::RawData) -> (outcome: Result<(), R::ReadErr>)
        ensures
            outcome is Ok,
    {
        self.cached_raw = count;
        Ok(())
    }

    fn read_count_state(&self) -> (raw: &R::RawData) {
        &self.cached_raw
    }

    /// Reads once and takes the sample in. Fails exactly when the read fails.
    fn try_update_count(&mut self) -> (outcome: Result<(), R::ReadErr>)
        ensures
            exists|sample: Result<R::RawData, R::ReadErr>|
                (#[trigger] can_read::<R>(sample))
                && outcome == report_of(sample)
                && final(self).count_state() == held_after(old(self).count_state(), sample),
    {
        let sample = R::read();
        assert(can_read::<R>(sample));
        self.take_sample(sample)
    }

    fn try_read_measure(&self) -> (outcome: Result<Measure<DEN>, R::ReadErr>) {
        let sample = R::read();
        assert(can_read::<R>(sample));
        Self::measure_sample(sample)
    }

    fn measure_count_state(&self) -> (measure: Measure<DEN>) {
        Ratio::<NUM, DEN>::measure(&self.cached_raw)
    }

    /// Takes `count` in and measures it. This counter refuses no raw count.
    fn try_update_and_measure(&mut self, count: &R::RawData) -> (outcome: Result<
        Measure<DEN>,
        R::ReadErr,
    >)
        ensures
            outcome is Ok,
    {
        self.cached_raw = *count;
        Ok(Ratio::<NUM, DEN>::measure(count))
    }

    fn measure_count(count: &R::RawData) -> (measure: Measure<DEN>) {
        Ratio::<NUM, DEN>::measure(count)
    }
}

} // verus!
