//! The closed-interval fraction.
use crate::code::{lemma_scaled_order, lemma_scaled_range, scaled, MAX_CODE};
use std::cmp::Ordering;
use vstd::prelude::*;
use vstd::std_specs::cmp::PartialOrdSpec;

verus! {

/// A fraction between 0 and 1, both included.
///
/// It is held as a raw code: the code 0 stands for 0, the largest code for 1,
/// and the codes between them divide the interval evenly.
#[derive(Clone, Copy, PartialEq, Eq, Structural, Ord)]
pub struct Primant(u32);

impl Primant {
    /// The raw code that the fraction holds.
    pub closed spec fn code(self) -> u32 {
        self.0
    }

    /// The real number that the fraction stands for: its code out of the
    /// largest code.
    pub open spec fn value(self) -> real {
        scaled(self.code() as int, MAX_CODE as int)
    }

    /// The fraction with the given raw code. Every code is valid.
    pub fn from_raw(value: u32) -> (r: Self)
        ensures
            r.code() == value,
    {
        Primant(value)
    }

    /// The raw code of the fraction.
    #[verifier::when_used_as_spec(code)]
    pub fn to_raw(self) -> (r: u32)
        ensures
            r == self.code(),
    {
        self.0
    }

    /// The smallest fraction, 0.
    pub fn min_value() -> (r: Self)
        ensures
            r.code() == 0,
    {
        Primant(0)
    }

    /// The fraction 0.
    pub fn zero() -> (r: Self)
        ensures
            r.code() == 0,
    {
        Primant(0)
    }

    /// The largest fraction, 1.
    pub fn max_value() -> (r: Self)
        ensures
            r.code() == MAX_CODE,
    {
        Primant(MAX_CODE)
    }
}

impl PartialOrd for Primant {
    /// Orders two fractions as their raw codes are ordered.
    fn partial_cmp(&self, other: &Self) -> (r: Option<Ordering>) {
        if self.0 < other.0 {
            Some(Ordering::Less)
        } else if self.0 > other.0 {
            Some(Ordering::Greater)
        } else {
            Some(Ordering::Equal)
        }
    }
}

impl vstd::std_specs::cmp::PartialOrdSpecImpl for Primant {
    open spec fn obeys_partial_cmp_spec() -> bool {
        true
    }

    open spec fn partial_cmp_spec(&self, other: &Self) -> Option<Ordering> {
        if self.code() < other.code() {
            Some(Ordering::Less)
        } else if self.code() > other.code() {
            Some(Ordering::Greater)
        } else {
            Some(Ordering::Equal)
        }
    }
}

/// Two fractions are the same exactly when their raw codes are: with
/// `from_raw` and `to_raw`, the fractions and the raw codes match one to one.
pub proof fn lemma_code_determines_fraction(a: Primant, b: Primant)
    ensures
        a.to_raw() == b.to_raw() <==> a == b,
{
}

/// The order and equality of raw codes are the order and equality of the
/// numbers they stand for, and `<` on fractions decides both.
pub proof fn lemma_order_correspondence(a: Primant, b: Primant)
    ensures
        a.to_raw() < b.to_raw() <==> a.value() < b.value(),
        a.to_raw() == b.to_raw() <==> a.value() == b.value(),
        a.partial_cmp_spec(&b) == Some(Ordering::Less) <==> a.value() < b.value(),
        a.partial_cmp_spec(&b) == Some(Ordering::Equal) <==> a.value() == b.value(),
        a.partial_cmp_spec(&b) == Some(Ordering::Greater) <==> a.value() > b.value(),
{
    lemma_scaled_order(code_of(a), code_of(b), scale());
    lemma_scaled_order(code_of(b), code_of(a), scale());
}

/// Every fraction stands for a number from 0 to 1; only the code 0 stands for
/// 0, and only the largest code for 1.
pub proof fn lemma_value_range(a: Primant)
    ensures
        0real <= a.value() <= 1real,
        a.to_raw() == 0 <==> a.value() == 0real,
        a.to_raw() == MAX_CODE <==> a.value() == 1real,
{
    lemma_scaled_range(code_of(a), scale());
}

/// The raw code as a mathematical integer.
spec fn code_of(a: Primant) -> int {
    a.to_raw() as int
}

/// The number of codes that make up the whole, as a mathematical integer.
spec fn scale() -> int {
    MAX_CODE as int
}

} // verus!
