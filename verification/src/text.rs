//! Decimal text rendering for fixed-point values.
//!
//! Parameter values are held as integers counting millionths of a unit.
//! The host displays them with exactly two decimal places, so rendering
//! rounds a value to hundredths (half away from zero) and prints
//! `<sign><whole>.<two digits>`.

use vstd::prelude::*;

verus! {

/// The decimal digit character for `d`, meaningful for `0 <= d <= 9`.
pub open spec fn spec_digit_char(d: int) -> char {
    if d == 0 {
        '0'
    } else if d == 1 {
        '1'
    } else if d == 2 {
        '2'
    } else if d == 3 {
        '3'
    } else if d == 4 {
        '4'
    } else if d == 5 {
        '5'
    } else if d == 6 {
        '6'
    } else if d == 7 {
        '7'
    } else if d == 8 {
        '8'
    } else {
        '9'
    }
}

/// The decimal digits of a non-negative `n`, most significant first,
/// without a sign and without leading zeros (`0` renders as "0").
pub open spec fn spec_decimal(n: int) -> Seq<char>
    decreases n,
{
    if n <= 9 {
        seq![spec_digit_char(n)]
    } else {
        spec_decimal(n / 10).push(spec_digit_char(n % 10))
    }
}

/// The magnitude of `micro`, rounded to hundredths of a unit,
/// half away from zero.
pub open spec fn spec_centi_magnitude(micro: int) -> int {
    if micro < 0 {
        (-micro + 5000) / 10000
    } else {
        (micro + 5000) / 10000
    }
}

/// `micro` millionths rendered with exactly two decimal places: an
/// optional minus sign (present whenever the value is negative, as
/// the host's float formatting keeps it even for `-0.00`), the whole
/// part, a point, and two fractional digits.
pub open spec fn spec_fixed_text(micro: int) -> Seq<char> {
    let c: int = spec_centi_magnitude(micro);
    let sign: Seq<char> = if micro < 0 {
        seq!['-']
    } else {
        Seq::empty()
    };
    sign + spec_decimal(c / 100) + seq!['.', spec_digit_char(c / 10 % 10), spec_digit_char(c % 10)]
}

/// `micro` millionths of a decibel rendered as the host display text:
/// the two-decimal fixed-point number followed by " dB".
pub open spec fn spec_db_text(micro: int) -> Seq<char> {
    spec_fixed_text(micro) + seq![' ', 'd', 'B']
}

/// The one-character string for decimal digit `d`.
fn digit_str(d: u64) -> (r: &'static str)
    requires
        d <= 9,
    ensures
        r@ =~= seq![spec_digit_char(d as int)],
{
    proof {
        reveal_strlit("0");
        reveal_strlit("1");
        reveal_strlit("2");
        reveal_strlit("3");
        reveal_strlit("4");
        reveal_strlit("5");
        reveal_strlit("6");
        reveal_strlit("7");
        reveal_strlit("8");
        reveal_strlit("9");
    }
    if d == 0 {
        "0"
    } else if d == 1 {
        "1"
    } else if d == 2 {
        "2"
    } else if d == 3 {
        "3"
    } else if d == 4 {
        "4"
    } else if d == 5 {
        "5"
    } else if d == 6 {
        "6"
    } else if d == 7 {
        "7"
    } else if d == 8 {
        "8"
    } else {
        "9"
    }
}

/// Appends the decimal digits of `n` to `s`.
fn push_decimal(s: &mut String, n: u64)
    ensures
        final(s)@ == old(s)@ + spec_decimal(n as int),
    decreases n,
{
    if n > 9 {
        push_decimal(s, n / 10);
        s.append(digit_str(n % 10));
        proof {
            assert(s@ =~= old(s)@ + spec_decimal(n as int));
        }
    } else {
        s.append(digit_str(n));
        proof {
            assert(s@ =~= old(s)@ + spec_decimal(n as int));
        }
    }
}

/// Renders `micro` millionths with two decimal places, as the host's
/// float formatting would.
pub fn fixed_text(micro: i64) -> (r: String)
    ensures
        r@ == spec_fixed_text(micro as int),
{
    let mut s = String::new();
    let mag: u64 = if micro >= 0 {
        micro as u64
    } else if micro == i64::MIN {
        9223372036854775808u64
    } else {
        (-micro) as u64
    };
    if micro < 0 {
        proof {
            reveal_strlit("-");
        }
        s.append("-");
    }
    let centi: u64 = (mag + 5000) / 10000;
    push_decimal(&mut s, centi / 100);
    proof {
        reveal_strlit(".");
    }
    s.append(".");
    s.append(digit_str(centi / 10 % 10));
    s.append(digit_str(centi % 10));
    proof {
        assert(s@ =~= spec_fixed_text(micro as int));
    }
    s
}

/// Renders `micro` millionths of a decibel as `"<value> dB"` with two
/// decimal places.
pub fn db_text(micro: i64) -> (r: String)
    ensures
        r@ == spec_db_text(micro as int),
{
    let mut s = fixed_text(micro);
    proof {
        reveal_strlit(" dB");
    }
    s.append(" dB");
    proof {
        assert(s@ =~= spec_db_text(micro as int));
    }
    s
}

} // verus!
