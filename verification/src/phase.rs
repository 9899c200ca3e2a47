//! The half-open fraction, for cyclic quantities.
use crate::code::{lemma_scaled_order, lemma_scaled_range, scaled, CODE_COUNT, MAX_CODE};
use std::cmp::Ordering;
use vstd::prelude::*;
use vstd::std_specs::cmp::PartialOrdSpec;

verus! {

/// A fraction between 0 and 1, with 0 included and 1 left out: a position in
/// a cycle, such as an angle or a phase.
///
/// It is held as a raw code: the code 0 stands for 0, and the largest code for
/// the last position before the cycle closes, just under 1.
#[derive(Clone, Copy, PartialEq, Eq, Structural, Ord)]
pub struct Phase(u32);

impl Phase {
    /// The raw code that the phase holds.
    pub closed spec fn code(self) -> u32 {
        self.0
    }

    /// The real number that the phase stands for: its code out of the number
    /// of codes, so that the cycle closes one step after the largest code.
    pub open spec fn value(self) -> real {
        scaled(self.code() as int, CODE_COUNT as int)
    }

    /// The phase with the given raw code. Every code is valid.
    pub fn from_raw(value: u32) -> (r: Self)
        ensures
            r.code() == value,
    {
        Phase(value)
    }

    /// The raw code of the phase.
    #[verifier::when_used_as_spec(code)]
    pub fn to_raw(self) -> (r: u32)
        ensures
            r == self.code(),
    {
        self.0
    }

    /// The smallest phase, 0.
    pub fn min_value() -> (r: Self)
        ensures
            r.code() == 0,
    {
        Phase(0)
    }

    /// The largest phase, one step before the cycle closes.
    pub fn max_value() -> (r: Self)
        ensures
            r.code() == MAX_CODE,
    {
        Phase(MAX_CODE)
    }
}

impl PartialOrd for Phase {
    /// Orders two phases as their raw codes are ordered.
    fn partial_cmp(&self, other: &Self) -> (r: Option<Ordering>) {
        if self.0 < other.0 {
            Some(Ordering::Less)
        } else if self.0 > other.0 {
            Some(Ordering::Greater)
        } else {
            Some(Ordering::Equal)
        }
    }
}

impl vstd::std_specs::cmp::PartialOrdSpecImpl for Phase {
    open spec fn obeys_partial_cmp_spec() -> bool {
        true
    }

    open spec fn partial_cmp_spec(&self, other: &Self) -> Option<Ordering> {
        if self.code() < other.code() {
            Some(Ordering::Less)
        } else if self.code() > other.code() {
            Some(Ordering::Greater)
        } else {
            Some(Ordering::Equal)
        }
    }
}

/// Two phases are the same exactly when their raw codes are: with `from_raw`
/// and `to_raw`, the phases and the raw codes match one to one.
pub proof fn lemma_code_determines_phase(a: Phase, b: Phase)
    ensures
        a.to_raw() == b.to_raw() <==> a == b,
{
}

/// The order and equality of raw codes are the order and equality of the
/// numbers they stand for, and `<` on phases decides both.
pub proof fn lemma_order_correspondence(a: Phase, b: Phase)
    ensures
        a.to_raw() < b.to_raw() <==> a.value() < b.value(),
        a.to_raw() == b.to_raw() <==> a.value() == b.value(),
        a.partial_cmp_spec(&b) == Some(Ordering::Less) <==> a.value() < b.value(),
        a.partial_cmp_spec(&b) == Some(Ordering::Equal) <==> a.value() == b.value(),
        a.partial_cmp_spec(&b) == Some(Ordering::Greater) <==> a.value() > b.value(),
{
    lemma_scaled_order(code_of(a), code_of(b), scale());
    lemma_scaled_order(code_of(b), code_of(a), scale());
}

/// Every phase stands for a number from 0 up to, but not including, 1; only
/// the code 0 stands for 0, and no phase stands for more than the largest code
/// does.
pub proof fn lemma_value_range(a: Phase)
    ensures
        0real <= a.value() < 1real,
        a.to_raw() == 0 <==> a.value() == 0real,
        a.value() <= largest_value() < 1real,
{
    lemma_scaled_range(code_of(a), scale());
    lemma_scaled_order(code_of(a), scale(), scale());
    lemma_scaled_range(largest_code(), scale());
    lemma_scaled_order(largest_code(), scale(), scale());
    lemma_scaled_order(largest_code(), code_of(a), scale());
}

/// The number that the largest code stands for.
pub open spec fn largest_value() -> real {
    scaled(MAX_CODE as int, CODE_COUNT as int)
}

/// The raw code as a mathematical integer.
spec fn code_of(a: Phase) -> int {
    a.to_raw() as int
}

/// The largest raw code as a mathematical integer.
spec fn largest_code() -> int {
    MAX_CODE as int
}

/// The number of codes that make up the whole, as a mathematical integer.
spec fn scale() -> int {
    CODE_COUNT as int
}

} // verus!
