//! The raw codes and the real numbers they are scaled to.
//!
//! A fraction is held as a raw code, a `u32`. The code stands for the real
//! number `code / scale`, where `scale` is the number of codes that make up
//! the whole. Going the other way, a real number of the unit interval is cut
//! down to the whole part of `x * scale`: truncation, not rounding to the
//! nearest code.
//!
//! What is proved here is proved of real numbers, in exact arithmetic. A
//! conversion that computes in floating point meets it only as far as its
//! own arithmetic is exact.
use vstd::prelude::*;

verus! {

/// The largest raw code.
pub const MAX_CODE: u32 = 0xFFFF_FFFF;

/// The number of raw codes.
pub const CODE_COUNT: u64 = 0x1_0000_0000;

/// The real number `code / scale`: what a raw code stands for when `scale`
/// codes make up the whole.
pub open spec fn scaled(code: int, scale: int) -> real {
    code as real / scale as real
}

/// The code that the real number `x` is cut down to: the whole part of
/// `x * scale`.
pub open spec fn truncated(x: real, scale: int) -> int {
    (x * scale as real).floor()
}

/// Scaling by a positive whole keeps order and equality of the codes.
pub proof fn lemma_scaled_order(a: int, b: int, scale: int)
    requires
        scale > 0,
    ensures
        a < b <==> scaled(a, scale) < scaled(b, scale),
        a == b <==> scaled(a, scale) == scaled(b, scale),
{
    let x = a as real;
    let y = b as real;
    let s = scale as real;
    assert(a < b <==> x < y);
    assert(a == b <==> x == y);
    assert((x < y <==> x / s < y / s) && (x == y <==> x / s == y / s)) by (nonlinear_arith)
        requires
            s > 0real,
    ;
}

/// The codes from 0 to `scale` stand for the numbers from 0 to 1, and the two
/// ends stand for exactly 0 and exactly 1.
pub proof fn lemma_scaled_range(code: int, scale: int)
    requires
        scale > 0,
    ensures
        0 <= code <==> 0real <= scaled(code, scale),
        code <= scale <==> scaled(code, scale) <= 1real,
        code == 0 <==> scaled(code, scale) == 0real,
        code == scale <==> scaled(code, scale) == 1real,
{
    let s = scale as real;
    assert(scaled(0, scale) == 0real && scaled(scale, scale) == 1real) by (nonlinear_arith)
        requires
            s == scale as real,
            s > 0real,
    ;
    lemma_scaled_order(code, 0, scale);
    lemma_scaled_order(0, code, scale);
    lemma_scaled_order(code, scale, scale);
    lemma_scaled_order(scale, code, scale);
}

/// A code that is scaled and then cut down comes back unchanged.
pub proof fn lemma_scale_then_truncate(code: int, scale: int)
    requires
        scale > 0,
    ensures
        truncated(scaled(code, scale), scale) == code,
{
    let c = code as real;
    let s = scale as real;
    assert(c / s * s == c) by (nonlinear_arith)
        requires
            s > 0real,
    ;
}

/// A number of the unit interval that is cut down and then scaled back is
/// not above the number, and less than one code below it.
pub proof fn lemma_truncate_then_scale(x: real, scale: int)
    requires
        scale > 0,
        0real <= x <= 1real,
    ensures
        0 <= truncated(x, scale) <= scale,
        scaled(truncated(x, scale), scale) <= x < scaled(truncated(x, scale) + 1, scale),
{
    let s = scale as real;
    let p = x * s;
    let t = truncated(x, scale);
    assert(0real <= p <= s) by (nonlinear_arith)
        requires
            p == x * s,
            0real <= x <= 1real,
            s > 0real,
    ;
    assert(t as real <= p < (t + 1) as real);
    let lo = t as real;
    let hi = (t + 1) as real;
    assert(lo / s <= x < hi / s) by (nonlinear_arith)
        requires
            lo <= p < hi,
            p == x * s,
            s > 0real,
    ;
}

/// Cutting down keeps the order of the numbers, though not strictly.
pub proof fn lemma_truncated_monotonic(x: real, y: real, scale: int)
    requires
        scale > 0,
        x <= y,
    ensures
        truncated(x, scale) <= truncated(y, scale),
{
    let s = scale as real;
    assert(x * s <= y * s) by (nonlinear_arith)
        requires
            x <= y,
            s > 0real,
    ;
}

} // verus!
