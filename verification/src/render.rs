//! Decimal rendering of the integer scalars used by the measurement model.
//!
//! All measurement values are fixed-point integers, so every display string
//! is produced by the functions here: unsigned and signed decimal digits,
//! one-decimal-place fixed-point rendering, and two-digit zero padding.

use vstd::prelude::*;
use vstd::string::StringExecFns;

verus! {

/// The character for one decimal digit.
pub open spec fn digit_char(d: int) -> char {
    if d == 0 {
        '0'
    } else if d == 1 {
        '1'
    } else if d == 2 {
        '2'
    } else if d == 3 {
        '3'
    } else if d == 4 {
        '4'
    } else if d == 5 {
        '5'
    } else if d == 6 {
        '6'
    } else if d == 7 {
        '7'
    } else if d == 8 {
        '8'
    } else {
        '9'
    }
}

/// Decimal digits of a non-negative value, most significant first,
/// without leading zeros (`"0"` for zero).
pub open spec fn spec_udec(n: int) -> Seq<char>
    recommends
        n >= 0,
    decreases n,
{
    if n < 10 {
        seq![digit_char(n)]
    } else {
        spec_udec(n / 10) + seq![digit_char(n % 10)]
    }
}

/// Decimal rendering of a possibly negative value, with a leading `'-'`
/// for negative values.
pub open spec fn spec_sdec(n: int) -> Seq<char> {
    if n < 0 {
        seq!['-'] + spec_udec(-n)
    } else {
        spec_udec(n)
    }
}

/// A value given in tenths rendered with exactly one decimal place:
/// `269` is `"26.9"`, `-3` is `"-0.3"`.
pub open spec fn spec_tenths(t: int) -> Seq<char> {
    let a = if t < 0 {
        -t
    } else {
        t
    };
    if t < 0 {
        seq!['-'] + spec_udec(a / 10) + seq!['.'] + seq![digit_char(a % 10)]
    } else {
        spec_udec(a / 10) + seq!['.'] + seq![digit_char(a % 10)]
    }
}

/// A value in `0..=99` rendered as exactly two digits (`5` is `"05"`).
pub open spec fn spec_two_digits(n: int) -> Seq<char> {
    seq![digit_char(n / 10), digit_char(n % 10)]
}

/// `n` divided by `d`, rounded to the nearest integer with ties away
/// from zero.
pub open spec fn round_div(n: int, d: int) -> int
    recommends
        d > 0,
{
    if n >= 0 {
        (n + d / 2) / d
    } else {
        -((-n + d / 2) / d)
    }
}

/// The string for one decimal digit.
pub(crate) fn digit_str(d: u64) -> (r: &'static str)
    requires
        d < 10,
    ensures
        r@ == seq![digit_char(d as int)],
{
    proof {
        reveal_strlit("0");
        reveal_strlit("1");
        reveal_strlit("2");
        reveal_strlit("3");
        reveal_strlit("4");
        reveal_strlit("5");
        reveal_strlit("6");
        reveal_strlit("7");
        reveal_strlit("8");
        reveal_strlit("9");
    }
    match d {
        0 => "0",
        1 => "1",
        2 => "2",
        3 => "3",
        4 => "4",
        5 => "5",
        6 => "6",
        7 => "7",
        8 => "8",
        _ => "9",
    }
}

/// Appends the decimal digits of `n` to `s`.
pub fn push_udec(s: &mut String, n: u64)
    ensures
        final(s)@ == old(s)@ + spec_udec(n as int),
    decreases n,
{
    if n >= 10 {
        push_udec(s, n / 10);
        s.append(digit_str(n % 10));
        proof {
            assert(s@ =~= old(s)@ + spec_udec(n as int));
        }
    } else {
        s.append(digit_str(n));
        proof {
            assert(s@ =~= old(s)@ + spec_udec(n as int));
        }
    }
}

/// The absolute value of `n`, which always fits in `u64`.
pub(crate) fn abs_u64(n: i64) -> (r: u64)
    ensures
        r as int == if n < 0 {
            -(n as int)
        } else {
            n as int
        },
{
    if n >= 0 {
        n as u64
    } else if n == i64::MIN {
        9223372036854775808u64
    } else {
        (-n) as u64
    }
}

/// Appends the signed decimal rendering of `n` to `s`.
pub fn push_sdec(s: &mut String, n: i64)
    ensures
        final(s)@ == old(s)@ + spec_sdec(n as int),
{
    proof {
        reveal_strlit("-");
    }
    if n < 0 {
        s.append("-");
        push_udec(s, abs_u64(n));
        proof {
            assert(s@ =~= old(s)@ + spec_sdec(n as int));
        }
    } else {
        push_udec(s, n as u64);
    }
}

/// Appends `t` (a value in tenths) with one decimal place to `s`.
pub fn push_tenths(s: &mut String, t: i64)
    ensures
        final(s)@ == old(s)@ + spec_tenths(t as int),
{
    proof {
        reveal_strlit("-");
        reveal_strlit(".");
    }
    let a: u64 = abs_u64(t);
    if t < 0 {
        s.append("-");
    }
    push_udec(s, a / 10);
    s.append(".");
    s.append(digit_str(a % 10));
    proof {
        assert(s@ =~= old(s)@ + spec_tenths(t as int));
    }
}

/// Appends `n` in `0..=99` as exactly two digits to `s`.
pub fn push_two_digits(s: &mut String, n: u64)
    requires
        n < 100,
    ensures
        final(s)@ == old(s)@ + spec_two_digits(n as int),
{
    s.append(digit_str(n / 10));
    s.append(digit_str(n % 10));
    proof {
        assert(s@ =~= old(s)@ + spec_two_digits(n as int));
    }
}

/// `c` (a value in hundredths) rounded to tenths, ties away from zero.
pub fn round_centi_to_tenths(c: i64) -> (t: i64)
    ensures
        t as int == round_div(c as int, 10),
{
    let v: i128 = c as i128;
    if v >= 0 {
        ((v + 5) / 10) as i64
    } else {
        (-((-v + 5) / 10)) as i64
    }
}

/// `c` (a value in hundredths) rounded to a whole unit, ties away from zero.
pub fn round_centi_to_unit(c: i64) -> (r: i64)
    ensures
        r as int == round_div(c as int, 100),
{
    let v: i128 = c as i128;
    if v >= 0 {
        ((v + 50) / 100) as i64
    } else {
        (-((-v + 50) / 100)) as i64
    }
}

} // verus!
