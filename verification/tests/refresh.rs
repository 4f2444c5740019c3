use discrete_count::{CountReader, Counter, Measure, Ratio, ScaledCounter};

#[derive(Debug, PartialEq, Eq, Clone, Copy)]
enum Fault {
    Timeout,
    Overrun,
}

/// An encoder register that reads a quarter turn.
struct QuarterTurn;

impl CountReader for QuarterTurn {
    type ReadErr = Fault;
    type RawData = u32;

    fn read() -> Result<u32, Fault> {
        Ok(1024)
    }
}

/// A register behind a bus that never answers.
struct DeadBus;

impl CountReader for DeadBus {
    type ReadErr = Fault;
    type RawData = u32;

    fn read() -> Result<u32, Fault> {
        Err(Fault::Timeout)
    }
}

/// A 16-bit tick register that has just reached its last value.
struct LastTick;

impl CountReader for LastTick {
    type ReadErr = Fault;
    type RawData = u16;

    fn read() -> Result<u16, Fault> {
        Ok(65535)
    }
}

type Encoder = ScaledCounter<QuarterTurn, 1, 4096>;
type StuckEncoder = ScaledCounter<DeadBus, 1, 4096>;
type Ticker = ScaledCounter<LastTick, 1, 10000>;

#[test]
fn new_counter_holds_its_initial_count() {
    let encoder = Encoder::new(77);
    assert_eq!(*encoder.read_count_state(), 77);
    assert_eq!(encoder.measure_count_state(), Measure::<4096> { parts: 77 });
}

#[test]
fn update_applies_exactly_the_sampled_value() {
    let mut encoder = Encoder::new(0);
    assert_eq!(encoder.try_update_count(), Ok(()));
    assert_eq!(*encoder.read_count_state(), 1024);
    let turn = encoder.measure_count_state();
    assert_eq!(turn.whole(), 0);
    assert_eq!(turn.frac(), 1024);
}

#[test]
fn failed_read_returns_the_error_and_keeps_the_measure() {
    let mut encoder = StuckEncoder::new(2048);
    let before = encoder.measure_count_state();
    assert_eq!(encoder.try_update_count(), Err(Fault::Timeout));
    assert_eq!(encoder.measure_count_state(), before);
    assert_eq!(encoder.measure_count_state().frac(), 2048);
}

#[test]
fn failure_preserves_state() {
    for held in [0u32, 1, 1024, 4096, u32::MAX] {
        let mut encoder = StuckEncoder::new(held);
        let before = encoder.measure_count_state();
        for _ in 0..3 {
            assert_eq!(encoder.try_update_count(), Err(Fault::Timeout));
            assert_eq!(*encoder.read_count_state(), held);
            assert_eq!(encoder.measure_count_state(), before);
        }
    }
}

#[test]
fn take_sample_applies_a_count_and_passes_a_failure_on() {
    let mut encoder = Encoder::new(5);
    assert_eq!(encoder.take_sample(Ok(4096)), Ok(()));
    assert_eq!(*encoder.read_count_state(), 4096);
    assert_eq!(encoder.take_sample(Err(Fault::Overrun)), Err(Fault::Overrun));
    assert_eq!(*encoder.read_count_state(), 4096);
    assert_eq!(encoder.take_sample(Err(Fault::Timeout)), Err(Fault::Timeout));
    assert_eq!(*encoder.read_count_state(), 4096);
    assert_eq!(encoder.measure_count_state().whole(), 1);
}

#[test]
fn no_update_without_success() {
    let samples = [
        Err(Fault::Timeout),
        Ok(10u32),
        Err(Fault::Overrun),
        Ok(20),
        Ok(30),
        Err(Fault::Timeout),
        Err(Fault::Timeout),
    ];
    let mut encoder = Encoder::new(1);
    let mut expected = 1u32;
    for sample in samples {
        let outcome = encoder.take_sample(sample);
        match sample {
            Ok(raw) => {
                assert_eq!(outcome, Ok(()));
                expected = raw;
            }
            Err(fault) => assert_eq!(outcome, Err(fault)),
        }
        assert_eq!(*encoder.read_count_state(), expected);
        assert_eq!(encoder.measure_count_state(), Encoder::measure_count(&expected));
    }
    assert_eq!(*encoder.read_count_state(), 30);
}

#[test]
fn failures_alone_keep_the_initial_count() {
    let mut encoder = Encoder::new(4097);
    for fault in [Fault::Timeout, Fault::Overrun, Fault::Timeout] {
        assert_eq!(encoder.take_sample(Err(fault)), Err(fault));
    }
    assert_eq!(*encoder.read_count_state(), 4097);
    assert_eq!(encoder.measure_count_state().whole(), 1);
    assert_eq!(encoder.measure_count_state().frac(), 1);
}

#[test]
fn update_count_state_takes_any_count() {
    let mut encoder = StuckEncoder::new(0);
    for raw in [0u32, 1, 4096, u32::MAX] {
        assert_eq!(encoder.update_count_state(raw), Ok(()));
        assert_eq!(*encoder.read_count_state(), raw);
    }
}

#[test]
fn try_update_and_measure_applies_the_given_count() {
    let mut encoder = StuckEncoder::new(0);
    let turn = encoder.try_update_and_measure(&6144).unwrap();
    assert_eq!(turn.whole(), 1);
    assert_eq!(turn.frac(), 2048);
    assert_eq!(*encoder.read_count_state(), 6144);
    assert_eq!(encoder.measure_count_state(), turn);
}

#[test]
fn try_read_measure_reads_through() {
    let encoder = Encoder::new(9);
    let fresh = encoder.try_read_measure().unwrap();
    assert_eq!(fresh, Measure::<4096> { parts: 1024 });
    assert_eq!(*encoder.read_count_state(), 9);
    assert_eq!(encoder.measure_count_state(), Measure::<4096> { parts: 9 });
}

#[test]
fn try_read_measure_fails_with_the_read() {
    let encoder = StuckEncoder::new(9);
    assert_eq!(encoder.try_read_measure(), Err(Fault::Timeout));
    assert_eq!(*encoder.read_count_state(), 9);
}

#[test]
fn direct_measure_needs_no_counter() {
    let turn = Encoder::direct_measure().unwrap();
    assert_eq!(turn.whole(), 0);
    assert_eq!(turn.frac(), 1024);
    assert_eq!(StuckEncoder::direct_measure(), Err(Fault::Timeout));
}

#[test]
fn measure_sample_converts_or_passes_on() {
    assert_eq!(Encoder::measure_sample(Ok(8192)), Ok(Measure::<4096> { parts: 8192 }));
    assert_eq!(Encoder::measure_sample(Err(Fault::Overrun)), Err(Fault::Overrun));
}

#[test]
fn measure_count_is_the_ratio_of_the_counter() {
    for raw in [0u32, 1, 1024, 4096, 65536, u32::MAX] {
        assert_eq!(Encoder::measure_count(&raw), Ratio::<1, 4096>::measure(&raw));
        assert_eq!(Encoder::measure_count(&raw), Encoder::measure_count(&raw));
    }
    let scaled = ScaledCounter::<QuarterTurn, 3, 8>::measure_count(&5);
    assert_eq!(scaled.parts, 15);
    assert_eq!(scaled.whole(), 1);
    assert_eq!(scaled.frac(), 7);
}

#[test]
fn tick_counter_follows_its_register_through_the_wrap() {
    let mut ticker = Ticker::new(10000);
    assert_eq!(ticker.measure_count_state().whole(), 1);
    assert_eq!(ticker.measure_count_state().frac(), 0);

    assert_eq!(ticker.try_update_count(), Ok(()));
    assert_eq!(*ticker.read_count_state(), 65535);
    assert_eq!(ticker.measure_count_state().whole(), 6);
    assert_eq!(ticker.measure_count_state().frac(), 5535);

    let wrapped = ticker.read_count_state().wrapping_add(1);
    let elapsed = ticker.try_update_and_measure(&wrapped).unwrap();
    assert_eq!(*ticker.read_count_state(), 0);
    assert_eq!(elapsed, Measure::<10000> { parts: 0 });
}

/// A millisecond counter written by hand: its measure is the raw count itself.
struct Millis {
    cached: u32,
}

impl Counter for Millis {
    type Reader = QuarterTurn;
    type Resolution = Ratio<1, 1000>;
    type Measure = u32;

    fn count_state(&self) -> u32 {
        self.cached
    }

    fn measure_of(raw: u32) -> u32 {
        raw
    }

    fn update_count_state(&mut self, count: u32) -> Result<(), Fault> {
        self.cached = count;
        Ok(())
    }

    fn read_count_state(&self) -> &u32 {
        &self.cached
    }

    fn try_update_count(&mut self) -> Result<(), Fault> {
        self.cached = QuarterTurn::read()?;
        Ok(())
    }

    fn try_read_measure(&self) -> Result<u32, Fault> {
        Self::direct_measure()
    }

    fn measure_count_state(&self) -> u32 {
        self.cached
    }

    fn try_update_and_measure(&mut self, count: &u32) -> Result<u32, Fault> {
        self.cached = *count;
        Ok(*count)
    }

    fn measure_count(count: &u32) -> u32 {
        *count
    }
}

#[test]
fn provided_methods_serve_a_counter_written_by_hand() {
    assert_eq!(Millis::direct_measure(), Ok(1024));
    assert_eq!(Millis::measure_sample(Ok(5)), Ok(5));
    assert_eq!(Millis::measure_sample(Err(Fault::Timeout)), Err(Fault::Timeout));
    let mut millis = Millis { cached: 0 };
    assert_eq!(millis.try_update_count(), Ok(()));
    assert_eq!(millis.measure_count_state(), 1024);
    assert_eq!(millis.try_read_measure(), Ok(1024));
}
