//! Verified decimal rendering for the numbers the reports show:
//! confidence scores and region fractions, held in basis points
//! (ten-thousandths), are rendered as fixed-point decimals.

use vstd::prelude::*;

verus! {

/// The decimal digit character for one digit value.
pub open spec fn digit_char(d: nat) -> char {
    if d == 0 {
        '0'
    } else if d == 1 {
        '1'
    } else if d == 2 {
        '2'
    } else if d == 3 {
        '3'
    } else if d == 4 {
        '4'
    } else if d == 5 {
        '5'
    } else if d == 6 {
        '6'
    } else if d == 7 {
        '7'
    } else if d == 8 {
        '8'
    } else {
        '9'
    }
}

/// The decimal digits of a number, most significant first, with no
/// leading zero except for zero itself.
pub open spec fn dec_digits(n: nat) -> Seq<char>
    decreases n,
{
    if n < 10 {
        seq![digit_char(n)]
    } else {
        dec_digits(n / 10) + seq![digit_char(n % 10)]
    }
}

/// The fixed-point text for a value in basis points: the whole part, a
/// dot, and the fractional part zero-padded to four digits.
pub open spec fn basis_points_text(bp: nat) -> Seq<char> {
    dec_digits(bp / 10000) + seq!['.'] + pad_to_four(bp % 10000)
}

/// The fractional digits padded on the left with zeros to width four.
pub open spec fn pad_to_four(f: nat) -> Seq<char> {
    if f < 10 {
        seq!['0', '0', '0'] + dec_digits(f)
    } else if f < 100 {
        seq!['0', '0'] + dec_digits(f)
    } else if f < 1000 {
        seq!['0'] + dec_digits(f)
    } else {
        dec_digits(f)
    }
}

fn digit_str(d: u64) -> (r: &'static str)
    requires
        d < 10,
    ensures
        r@ == seq![digit_char(d as nat)],
{
    proof {
        reveal_strlit("0");
        reveal_strlit("1");
        reveal_strlit("2");
        reveal_strlit("3");
        reveal_strlit("4");
        reveal_strlit("5");
        reveal_strlit("6");
        reveal_strlit("7");
        reveal_strlit("8");
        reveal_strlit("9");
    }
    let r = match d {
        0 => "0",
        1 => "1",
        2 => "2",
        3 => "3",
        4 => "4",
        5 => "5",
        6 => "6",
        7 => "7",
        8 => "8",
        _ => "9",
    };
    proof {
        assert(r@ =~= seq![digit_char(d as nat)]);
    }
    r
}

/// The decimal text of a number, no sign, no separators.
pub fn dec_string(n: u64) -> (r: String)
    ensures
        r@ == dec_digits(n as nat),
    decreases n,
{
    if n < 10 {
        String::from_str(digit_str(n))
    } else {
        let mut s = dec_string(n / 10);
        s.append(digit_str(n % 10));
        s
    }
}

/// Renders a value held in basis points as a fixed-point decimal with
/// four fractional digits, e.g. nine thousand eight hundred basis points
/// render as `0.9800`.
pub fn format_basis_points(bp: u32) -> (r: String)
    ensures
        r@ == basis_points_text(bp as nat),
{
    proof {
        reveal_strlit(".");
        reveal_strlit("0");
        reveal_strlit("00");
        reveal_strlit("000");
    }
    let whole: u32 = bp / 10000;
    let frac: u32 = bp % 10000;
    let mut s = dec_string(whole as u64);
    s.append(".");
    if frac < 10 {
        s.append("000");
    } else if frac < 100 {
        s.append("00");
    } else if frac < 1000 {
        s.append("0");
    }
    let frac_digits = dec_string(frac as u64);
    s.append(frac_digits.as_str());
    proof {
        assert(s@ =~= basis_points_text(bp as nat));
    }
    s
}

} // verus!
