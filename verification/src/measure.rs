//! Measures: quantities counted in equal parts of a unit.

use vstd::prelude::*;
use vstd::arithmetic::div_mod::{lemma_fundamental_div_mod, lemma_fundamental_div_mod_converse};
use crate::resolution::{positive_term, term_value};

verus! {

/// A physical quantity held as a signed number of parts, `DEN` parts making
/// one unit (one rotation, one second, one metre).
///
/// The quantity is the rational `parts / DEN`. It is kept exactly: a measure
/// never rounds, and equal quantities have equal representations.
#[derive(Clone, Copy, Debug, PartialEq, Eq)]
pub struct Measure<const DEN: u32> {
    /// How many parts of a unit the quantity amounts to.
    pub parts: i128,
}

impl<const DEN: u32> View for Measure<DEN> {
    type V = int;

    /// A measure is modelled by its number of parts.
    open spec fn view(&self) -> int {
        self.parts as int
    }
}

impl<const DEN: u32> Measure<DEN> {
    /// How many parts make one unit.
    pub open spec fn parts_per_unit() -> int {
        positive_term(DEN)
    }

    /// The whole units of the quantity, rounded towards negative infinity.
    pub open spec fn whole_part(self) -> int {
        self@ / Self::parts_per_unit()
    }

    /// The parts left over beyond the whole units: never negative, and fewer
    /// than make a unit.
    pub open spec fn frac_part(self) -> int {
        self@ % Self::parts_per_unit()
    }

    /// How many parts make one unit.
    pub fn denominator() -> (parts: u32)
        ensures
            parts == Self::parts_per_unit(),
            parts >= 1,
    {
        term_value(DEN)
    }

    /// The integer part: how many whole units the quantity holds. For a
    /// quantity below zero this is the next whole number down, so that the
    /// fractional part is never negative.
    pub fn whole(&self) -> (units: i128)
        ensures
            units == self.whole_part(),
    {
        let per_unit: i128 = term_value(DEN) as i128;
        if self.parts >= 0 {
            self.parts / per_unit
        } else {
            proof {
                lemma_divide_below_zero(self@, per_unit as int);
            }
            let mirrored: i128 = -(self.parts + 1);
            -(mirrored / per_unit) - 1
        }
    }

    /// The fractional part, as a number of parts: `frac()` out of
    /// `denominator()` parts of a unit.
    pub fn frac(&self) -> (parts: u32)
        ensures
            parts == self.frac_part(),
            parts < Self::parts_per_unit(),
    {
        let per_unit: i128 = term_value(DEN) as i128;
        if self.parts >= 0 {
            (self.parts % per_unit) as u32
        } else {
            proof {
                lemma_divide_below_zero(self@, per_unit as int);
            }
            let mirrored: i128 = -(self.parts + 1);
            (per_unit - 1 - mirrored % per_unit) as u32
        }
    }
}

/// Division of a number below zero, told by the division of its mirror image
/// `-(parts + 1)`, which is not below zero: the quotient mirrors back, and the
/// remainder is counted from the other end of the unit.
proof fn lemma_divide_below_zero(parts: int, per_unit: int)
    requires
        parts < 0,
        per_unit > 0,
    ensures
        parts / per_unit == -((-(parts + 1)) / per_unit) - 1,
        parts % per_unit == per_unit - 1 - (-(parts + 1)) % per_unit,
{
    let mirrored: int = -(parts + 1);
    let quotient: int = mirrored / per_unit;
    let remainder: int = mirrored % per_unit;
    lemma_fundamental_div_mod(mirrored, per_unit);
    assert(parts == (-quotient - 1) * per_unit + (per_unit - 1 - remainder)) by (nonlinear_arith)
        requires
            parts == -(mirrored + 1),
            mirrored == per_unit * quotient + remainder,
    ;
    lemma_fundamental_div_mod_converse(parts, per_unit, -quotient - 1, per_unit - 1 - remainder);
}

} // verus!
