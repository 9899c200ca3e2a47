//! The closed-interval fraction written as a percentage.
//!
//! The text is the percentage rounded to the nearest hundredth, with two
//! digits after the point and a percent sign: one half reads `50.00%`.
use crate::code::{scaled, MAX_CODE};
use crate::primant::Primant;
use vstd::prelude::*;
use vstd::string::StringExecFns;

verus! {

/// The number of hundredths of a percent nearest to what the code stands for.
pub open spec fn percent_hundredths(code: u32) -> int {
    (code as int * 20000 + MAX_CODE as int) / (2 * MAX_CODE as int)
}

/// The character of a decimal digit.
pub open spec fn digit_char(digit: int) -> char {
    ('0' as int + digit) as char
}

/// The decimal digits of a natural number, without leading zeros.
pub open spec fn decimal_text(n: nat) -> Seq<char>
    decreases n,
{
    if n < 10 {
        seq![digit_char(n as int)]
    } else {
        decimal_text(n / 10).push(digit_char((n % 10) as int))
    }
}

/// The text of a fraction: the whole percents, a point, two digits of
/// hundredths and a percent sign.
pub open spec fn percent_text(code: u32) -> Seq<char> {
    let hundredths = percent_hundredths(code);
    decimal_text((hundredths / 100) as nat) + seq![
        '.',
        digit_char(hundredths / 10 % 10),
        digit_char(hundredths % 10),
        '%',
    ]
}

/// The percentage that the fraction stands for.
pub open spec fn percent(p: Primant) -> real {
    100real * p.value()
}

/// The percentage that the text of the fraction shows.
pub open spec fn shown_percent(p: Primant) -> real {
    scaled(percent_hundredths(p.to_raw()), 100)
}

/// The text shows the hundredth of a percent nearest to the fraction: what it
/// shows lies within half a hundredth of the fraction's percentage, between 0
/// and 100 percent.
pub proof fn lemma_shown_percent_is_nearest(p: Primant)
    ensures
        0 <= percent_hundredths(p.to_raw()) <= 10000,
        shown_percent(p) - scaled(1, 200) <= percent(p) < shown_percent(p) + scaled(1, 200),
{
    // The largest code is 4294967295, and twice it is 8589934590.
    let c = p.to_raw() as int;
    let h = percent_hundredths(p.to_raw());
    let sum = c * 20000 + 4294967295;
    vstd::arithmetic::div_mod::lemma_fundamental_div_mod(sum, 8589934590);
    assert(8589934590 * h - 4294967295 <= c * 20000 < 8589934590 * h + 4294967295);
    let (cr, hr) = (c as real, h as real);
    assert(8589934590real * hr - 4294967295real <= 20000real * cr < 8589934590real * hr
        + 4294967295real);
    let v = cr / 4294967295real;
    assert(2real * hr - 1real <= 20000real * v < 2real * hr + 1real);
    assert(hr / 100real - 1real / 200real <= 100real * v < hr / 100real + 1real / 200real)
        by (nonlinear_arith)
        requires
            2real * hr - 1real <= 20000real * v < 2real * hr + 1real,
    ;
}

/// The text of one decimal digit.
fn digit_text(digit: u64) -> (r: &'static str)
    requires
        digit < 10,
    ensures
        r@ == seq![digit_char(digit as int)],
{
    proof {
        reveal_strlit("0");
        reveal_strlit("1");
        reveal_strlit("2");
        reveal_strlit("3");
        reveal_strlit("4");
        reveal_strlit("5");
        reveal_strlit("6");
        reveal_strlit("7");
        reveal_strlit("8");
        reveal_strlit("9");
    }
    let r = match digit {
        0 => "0",
        1 => "1",
        2 => "2",
        3 => "3",
        4 => "4",
        5 => "5",
        6 => "6",
        7 => "7",
        8 => "8",
        _ => "9",
    };
    assert(r@ =~= seq![digit_char(digit as int)]);
    r
}

/// Appends the decimal digits of `n` to the text.
fn append_decimal(text: &mut String, n: u64)
    ensures
        final(text)@ == old(text)@ + decimal_text(n as nat),
    decreases n,
{
    if n >= 10 {
        append_decimal(text, n / 10);
    }
    text.append(digit_text(n % 10));
}

impl Primant {
    /// The fraction as a percentage with two digits after the point.
    pub fn to_string(&self) -> (text: String)
        ensures
            text@ == percent_text(self.to_raw()),
    {
        let hundredths: u64 = (self.to_raw() as u64 * 20000 + MAX_CODE as u64) / (2 * MAX_CODE as u64);
        let mut text = String::new();
        append_decimal(&mut text, hundredths / 100);
        text.append(".");
        text.append(digit_text(hundredths / 10 % 10));
        text.append(digit_text(hundredths % 10));
        text.append("%");
        proof {
            reveal_strlit(".");
            reveal_strlit("%");
            assert(text@ =~= percent_text(self.to_raw()));
        }
        text
    }
}

} // verus!
