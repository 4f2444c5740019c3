//! Resolutions: how many units of measure one raw count is worth.

use vstd::prelude::*;
use vstd::arithmetic::div_mod::lemma_fundamental_div_mod;
use vstd::arithmetic::mul::lemma_mul_equality_converse;
use crate::measure::Measure;
use crate::raw::RawCount;

verus! {

/// Reads a term of a resolution as a positive integer: zero stands for one,
/// so that every pair of terms names a positive ratio.
pub open spec fn positive_term(term: u32) -> int {
    if term == 0 {
        1
    } else {
        term as int
    }
}

/// The executable form of [`positive_term`].
pub fn term_value(term: u32) -> (value: u32)
    ensures
        value == positive_term(term),
        value >= 1,
{
    if term == 0 {
        1
    } else {
        term
    }
}

/// The resolution `NUM / DEN`: each raw count is worth `NUM` parts of a unit
/// that has `DEN` parts. A raw count of `DEN` therefore measures `NUM` units.
///
/// The resolution is fixed by the type and never held at run time. Both terms
/// are positive; a term written as zero stands for one.
///
/// An oscillator that ticks ten thousand times a second counts seconds at
/// `Ratio<1, 10000>`; an encoder with 4096 counts to the turn counts turns at
/// `Ratio<1, 4096>`.
pub struct Ratio<const NUM: u32, const DEN: u32> {}

impl<const NUM: u32, const DEN: u32> Ratio<NUM, DEN> {
    /// How many parts of a unit one raw count is worth.
    pub open spec fn numerator() -> int {
        positive_term(NUM)
    }

    /// How many parts make one unit.
    pub open spec fn denominator() -> int {
        positive_term(DEN)
    }

    /// The measure of `count` raw counts: `count * NUM` parts, which is
    /// `count * NUM / DEN` units, kept exactly.
    pub open spec fn scaled(count: int) -> Measure<DEN> {
        Measure { parts: (count * Self::numerator()) as i128 }
    }

    /// Converts a raw count into its measure. The conversion is total and
    /// exact: no raw count is refused and none is rounded. A register that
    /// has wrapped is measured at its wrapped value; nothing saturates, and
    /// no measure lies outside what the register's range scales to.
    pub fn measure<Raw: RawCount>(raw: &Raw) -> (measure: Measure<DEN>)
        ensures
            measure == Self::scaled(raw.count()),
            measure@ == raw.count() * Self::numerator(),
    {
        let wide: i128 = raw.widen();
        let each: i128 = term_value(NUM) as i128;
        proof {
            raw.lemma_count_fits();
            Self::lemma_parts_fit(wide as int);
        }
        Measure { parts: wide * each }
    }

    /// The parts of any raw count's measure fit the width of a measure.
    proof fn lemma_parts_fit(count: int)
        requires
            i64::MIN <= count <= u64::MAX,
        ensures
            i128::MIN <= count * Self::numerator() <= i128::MAX,
    {
        let each: int = Self::numerator();
        assert(i64::MIN * 0x1_0000_0000 <= count * each <= u64::MAX * 0x1_0000_0000)
            by (nonlinear_arith)
            requires
                i64::MIN <= count <= u64::MAX,
                1 <= each < 0x1_0000_0000,
        ;
    }

    /// Conversion is a function of the raw count and nothing else: measuring
    /// the same raw count twice gives the same measure, part for part.
    pub proof fn lemma_measure_repeats<Raw: RawCount>(
        raw: Raw,
        first: Measure<DEN>,
        second: Measure<DEN>,
    )
        requires
            call_ensures(Self::measure::<Raw>, (&raw,), first),
            call_ensures(Self::measure::<Raw>, (&raw,), second),
        ensures
            first == second,
            first.parts == second.parts,
    {
    }

    /// A measure is the raw count times the numerator, in parts of a unit:
    /// the conversion is `raw * NUM / DEN`, with nothing rounded away.
    pub proof fn lemma_measure_is_scaled_count<Raw: RawCount>(raw: Raw)
        ensures
            Self::scaled(raw.count())@ == raw.count() * Self::numerator(),
            Self::scaled(raw.count()).whole_part() == (raw.count() * Self::numerator())
                / Self::denominator(),
            Self::scaled(raw.count()).frac_part() == (raw.count() * Self::numerator())
                % Self::denominator(),
    {
        raw.lemma_count_fits();
        Self::lemma_parts_fit(raw.count());
    }

    /// The integer part and the fractional part of a measure make up the
    /// whole of it, and the fractional part is less than one unit.
    pub proof fn lemma_parts_make_the_measure<Raw: RawCount>(raw: Raw)
        ensures
            Self::scaled(raw.count()).whole_part() * Self::denominator() + Self::scaled(
                raw.count(),
            ).frac_part() == raw.count() * Self::numerator(),
            0 <= Self::scaled(raw.count()).frac_part() < Self::denominator(),
    {
        Self::lemma_measure_is_scaled_count(raw);
        lemma_fundamental_div_mod(raw.count() * Self::numerator(), Self::denominator());
        assert(Self::denominator() * Self::scaled(raw.count()).whole_part() == Self::scaled(
            raw.count(),
        ).whole_part() * Self::denominator()) by (nonlinear_arith);
    }

    /// At a resolution of one part per count, the integer part of a measure
    /// is the raw count divided by the denominator, and the fractional part is
    /// the remainder of that division, in parts of the denominator.
    pub proof fn lemma_one_part_per_count<Raw: RawCount>(raw: Raw)
        requires
            Self::numerator() == 1,
        ensures
            Self::scaled(raw.count()).whole_part() == raw.count() / Self::denominator(),
            Self::scaled(raw.count()).frac_part() == raw.count() % Self::denominator(),
    {
        Self::lemma_measure_is_scaled_count(raw);
    }

    /// Distinct raw counts have distinct measures: the conversion loses
    /// nothing of the raw count.
    pub proof fn lemma_measure_keeps_count<Raw: RawCount>(one: Raw, other: Raw)
        requires
            Self::scaled(one.count()) == Self::scaled(other.count()),
        ensures
            one.count() == other.count(),
    {
        Self::lemma_measure_is_scaled_count(one);
        Self::lemma_measure_is_scaled_count(other);
        assert(Self::numerator() * one.count() == Self::numerator() * other.count())
            by (nonlinear_arith)
            requires
                one.count() * Self::numerator() == other.count() * Self::numerator(),
        ;
        lemma_mul_equality_converse(Self::numerator(), one.count(), other.count());
    }
}

} // verus!
