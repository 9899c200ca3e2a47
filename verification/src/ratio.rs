//! Fractions made from a ratio of two integers, by integer arithmetic alone.
//!
//! The code of `numerator / denominator` is the numerator times the whole
//! number of codes that one part of the denominator spans. It never exceeds
//! the ratio, and falls short of it by less than `denominator` codes.
use crate::code::{scaled, truncated, MAX_CODE};
use crate::primant::Primant;
use vstd::prelude::*;

verus! {

/// Why a numerator and a denominator make no fraction.
#[derive(Clone, Copy, PartialEq, Eq, Structural, Debug)]
pub enum RatioError {
    /// The denominator is zero.
    DegenerateRatio,
    /// The numerator exceeds the denominator.
    InvalidRatioShape,
}

/// The fault of a ratio, if it has one. A zero denominator is named first.
pub open spec fn ratio_fault(numerator: u32, denominator: u32) -> Option<RatioError> {
    if denominator == 0 {
        Some(RatioError::DegenerateRatio)
    } else if numerator > denominator {
        Some(RatioError::InvalidRatioShape)
    } else {
        None
    }
}

/// The number of codes in one part when the whole is cut into `denominator`
/// parts, rounded down.
pub open spec fn codes_per_part(denominator: u32) -> int {
    MAX_CODE as int / denominator as int
}

/// The code of a ratio before any clamping: the numerator times the codes in
/// one part.
pub open spec fn ratio_code(numerator: u32, denominator: u32) -> int {
    numerator as int * codes_per_part(denominator)
}

/// The real number `numerator / denominator`.
pub open spec fn ratio(numerator: u32, denominator: u32) -> real {
    scaled(numerator as int, denominator as int)
}

/// How far the fraction `p` falls short of the ratio `numerator / denominator`.
pub open spec fn shortfall(p: Primant, numerator: u32, denominator: u32) -> real {
    ratio(numerator, denominator) - p.value()
}

/// The most that the fraction of a ratio falls short of it: one code for each
/// part of the denominator but one.
pub open spec fn max_shortfall(denominator: u32) -> real {
    scaled(denominator - 1, MAX_CODE as int)
}

/// The code of a ratio clamped to the largest code.
pub open spec fn saturated_ratio_code(numerator: u32, denominator: u32) -> int {
    if ratio_code(numerator, denominator) > MAX_CODE as int {
        MAX_CODE as int
    } else {
        ratio_code(numerator, denominator)
    }
}

/// The code of a ratio without fault is a raw code.
pub proof fn lemma_ratio_code_fits(numerator: u32, denominator: u32)
    requires
        ratio_fault(numerator, denominator) is None,
    ensures
        0 <= ratio_code(numerator, denominator) <= MAX_CODE,
{
    let n = numerator as int;
    let d = denominator as int;
    let q = codes_per_part(denominator);
    vstd::arithmetic::div_mod::lemma_fundamental_div_mod(MAX_CODE as int, d);
    assert(0 <= q && d * q <= MAX_CODE as int) by (nonlinear_arith)
        requires
            d > 0,
            q == MAX_CODE as int / d,
            MAX_CODE as int == d * q + MAX_CODE as int % d,
            0 <= MAX_CODE as int % d,
    ;
    assert(0 <= n * q <= d * q) by (nonlinear_arith)
        requires
            0 <= n <= d,
            0 <= q,
    ;
}

/// The code of a ratio stands for no more than the ratio, and for less than
/// `denominator` codes below it; where the denominator divides the largest
/// code, it stands for the ratio exactly.
pub proof fn lemma_ratio_code_error(numerator: u32, denominator: u32)
    requires
        ratio_fault(numerator, denominator) is None,
    ensures
        scaled(ratio_code(numerator, denominator), MAX_CODE as int) <= ratio(numerator, denominator),
        ratio(numerator, denominator) - scaled(ratio_code(numerator, denominator), MAX_CODE as int)
            <= max_shortfall(denominator),
        MAX_CODE % denominator == 0 ==> scaled(ratio_code(numerator, denominator), MAX_CODE as int)
            == ratio(numerator, denominator),
{
    let n = numerator as int;
    let d = denominator as int;
    let m = MAX_CODE as int;
    let q = codes_per_part(denominator);
    let rest = m % d;
    let c = ratio_code(numerator, denominator);
    vstd::arithmetic::div_mod::lemma_fundamental_div_mod(m, d);
    // In integers: the ratio and its code differ by `n * rest` parts of `d * m`.
    assert(n * m - d * c == n * rest && 0 <= n * rest <= d * (d - 1)) by (nonlinear_arith)
        requires
            0 <= n <= d,
            0 <= rest < d,
            m == d * q + rest,
            c == n * q,
    ;
    let gap = n * m - d * c;
    let (nr, dr, mr, cr) = (n as real, d as real, m as real, c as real);
    assert(gap as real == nr * mr - dr * cr) by (nonlinear_arith)
        requires
            gap == n * m - d * c,
            nr == n as real,
            dr == d as real,
            mr == m as real,
            cr == c as real,
    ;
    assert(((d - 1) * d) as real == (dr - 1real) * dr) by (nonlinear_arith)
        requires
            dr == d as real,
    ;
    assert(cr / mr <= nr / dr && nr / dr - cr / mr <= (dr - 1real) / mr && (nr * mr - dr * cr
        == 0real ==> cr / mr == nr / dr)) by (nonlinear_arith)
        requires
            dr > 0real,
            mr > 0real,
            0real <= nr * mr - dr * cr <= (dr - 1real) * dr,
    ;
}

/// The code of a ratio is never above the code that the ratio itself, as a
/// real number, is cut down to.
pub proof fn lemma_ratio_code_below_truncation(numerator: u32, denominator: u32)
    requires
        ratio_fault(numerator, denominator) is None,
    ensures
        ratio_code(numerator, denominator) <= truncated(
            ratio(numerator, denominator),
            MAX_CODE as int,
        ),
{
    lemma_ratio_code_error(numerator, denominator);
    let c = ratio_code(numerator, denominator) as real;
    let m = MAX_CODE as real;
    let x = ratio(numerator, denominator);
    assert(c <= x * m) by (nonlinear_arith)
        requires
            c / m <= x,
            m > 0real,
    ;
}

impl Primant {
    /// Tells whether a numerator and a denominator make a fraction, and if
    /// not, why.
    pub fn check_ratio(numerator: u32, denominator: u32) -> (r: Result<(), RatioError>)
        ensures
            r == match ratio_fault(numerator, denominator) {
                Some(fault) => Err::<(), RatioError>(fault),
                None => Ok::<(), RatioError>(()),
            },
    {
        if denominator == 0 {
            Err(RatioError::DegenerateRatio)
        } else if numerator > denominator {
            Err(RatioError::InvalidRatioShape)
        } else {
            Ok(())
        }
    }

    /// The fraction of `numerator / denominator`, without any test of the
    /// ratio: the caller has made sure that the denominator is not zero and
    /// that the numerator does not exceed it.
    pub fn from_ratio_unchecked(numerator: u32, denominator: u32) -> (r: Self)
        requires
            denominator != 0,
            numerator <= denominator,
        ensures
            r.to_raw() == ratio_code(numerator, denominator),
            0real <= shortfall(r, numerator, denominator) <= max_shortfall(denominator),
            MAX_CODE % denominator == 0 ==> shortfall(r, numerator, denominator) == 0real,
    {
        proof {
            lemma_ratio_code_fits(numerator, denominator);
            lemma_ratio_code_error(numerator, denominator);
        }
        Primant::from_raw(numerator * (MAX_CODE / denominator))
    }

    /// The fraction of `numerator / denominator`. The denominator must not be
    /// zero, and the numerator must not exceed it.
    pub fn from_ratio(numerator: u32, denominator: u32) -> (r: Self)
        requires
            denominator != 0,
            numerator <= denominator,
        ensures
            r.to_raw() == ratio_code(numerator, denominator),
            0real <= shortfall(r, numerator, denominator) <= max_shortfall(denominator),
            MAX_CODE % denominator == 0 ==> shortfall(r, numerator, denominator) == 0real,
    {
        Self::from_ratio_unchecked(numerator, denominator)
    }

    /// The fraction of `numerator / denominator`, or `None` where the
    /// denominator is zero or the numerator exceeds it.
    pub fn try_from_ratio(numerator: u32, denominator: u32) -> (r: Option<Self>)
        ensures
            r is None <==> ratio_fault(numerator, denominator) is Some,
            r matches Some(p) ==> {
                &&& p.to_raw() == ratio_code(numerator, denominator)
                &&& 0real <= shortfall(p, numerator, denominator) <= max_shortfall(denominator)
                &&& MAX_CODE % denominator == 0 ==> shortfall(p, numerator, denominator) == 0real
            },
    {
        match Self::check_ratio(numerator, denominator) {
            Ok(()) => Some(Self::from_ratio_unchecked(numerator, denominator)),
            Err(_) => None,
        }
    }

    /// The fraction of `numerator / denominator`, with the largest fraction
    /// in place of any code that would not fit. The denominator must not be
    /// zero; the numerator may exceed it.
    pub fn from_ratio_saturating(numerator: u32, denominator: u32) -> (r: Self)
        requires
            denominator != 0,
        ensures
            r.to_raw() == saturated_ratio_code(numerator, denominator),
            numerator <= denominator ==> {
                &&& r.to_raw() == ratio_code(numerator, denominator)
                &&& 0real <= shortfall(r, numerator, denominator) <= max_shortfall(denominator)
                &&& MAX_CODE % denominator == 0 ==> shortfall(r, numerator, denominator) == 0real
            },
    {
        proof {
            if numerator <= denominator {
                lemma_ratio_code_fits(numerator, denominator);
                lemma_ratio_code_error(numerator, denominator);
            }
        }
        match numerator.checked_mul(MAX_CODE / denominator) {
            Some(code) => Primant::from_raw(code),
            None => Primant::max_value(),
        }
    }
}

} // verus!
