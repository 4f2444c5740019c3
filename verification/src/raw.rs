//! Raw counts: the register values that a counter scales.

use vstd::prelude::*;

verus! {

/// A register value that stands for a number of counts.
///
/// Registers of up to 64 bits, signed or unsigned, are raw counts. The value
/// is taken as the integer that the register holds: a register that wraps
/// hands on its wrapped value, and a signed one may count below zero.
pub trait RawCount: Copy {
    /// The number of counts that the register value stands for.
    spec fn count(self) -> int;

    /// Every raw count lies within what 64 bits hold, signed or unsigned.
    proof fn lemma_count_fits(self)
        ensures
            i64::MIN <= self.count() <= u64::MAX,
    ;

    /// The number of counts, in a width that holds every raw count.
    fn widen(&self) -> (wide: i128)
        ensures
            wide == self.count(),
    ;
}

impl RawCount for u8 {
    open spec fn count(self) -> int {
        self as int
    }

    proof fn lemma_count_fits(self) {
    }

    fn widen(&self) -> (wide: i128) {
        *self as i128
    }
}

impl RawCount for u16 {
    open spec fn count(self) -> int {
        self as int
    }

    proof fn lemma_count_fits(self) {
    }

    fn widen(&self) -> (wide: i128) {
        *self as i128
    }
}

impl RawCount for u32 {
    open spec fn count(self) -> int {
        self as int
    }

    proof fn lemma_count_fits(self) {
    }

    fn widen(&self) -> (wide: i128) {
        *self as i128
    }
}

impl RawCount for u64 {
    open spec fn count(self) -> int {
        self as int
    }

    proof fn lemma_count_fits(self) {
    }

    fn widen(&self) -> (wide: i128) {
        *self as i128
    }
}

impl RawCount for i8 {
    open spec fn count(self) -> int {
        self as int
    }

    proof fn lemma_count_fits(self) {
    }

    fn widen(&self) -> (wide: i128) {
        *self as i128
    }
}

impl RawCount for i16 {
    open spec fn count(self) -> int {
        self as int
    }

    proof fn lemma_count_fits(self) {
    }

    fn widen(&self) -> (wide: i128) {
        *self as i128
    }
}

impl RawCount for i32 {
    open spec fn count(self) -> int {
        self as int
    }

    proof fn lemma_count_fits(self) {
    }

    fn widen(&self) -> (wide: i128) {
        *self as i128
    }
}

impl RawCount for i64 {
    open spec fn count(self) -> int {
        self as int
    }

    proof fn lemma_count_fits(self) {
    }

    fn widen(&self) -> (wide: i128) {
        *self as i128
    }
}

} // verus!
