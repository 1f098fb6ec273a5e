//! Decimal rendering of the small chapter, section and verse numbers that
//! appear inside passage links.

use vstd::prelude::*;
use vstd::string::StringExecFns;

verus! {

/// The character for one decimal digit.
pub open spec fn dec_digit(d: int) -> char {
    if d == 0 {
        '0'
    } else if d == 1 {
        '1'
    } else if d == 2 {
        '2'
    } else if d == 3 {
        '3'
    } else if d == 4 {
        '4'
    } else if d == 5 {
        '5'
    } else if d == 6 {
        '6'
    } else if d == 7 {
        '7'
    } else if d == 8 {
        '8'
    } else {
        '9'
    }
}

/// The decimal numeral of a non-negative integer, most significant digit
/// first, with no leading zeros (`0` itself is the single digit `0`).
pub open spec fn dec_of(n: int) -> Seq<char>
    decreases n,
{
    if n < 10 {
        seq![dec_digit(n)]
    } else {
        dec_of(n / 10) + seq![dec_digit(n % 10)]
    }
}

/// One decimal digit as a string slice.
fn dec_digit_str(d: u8) -> (r: &'static str)
    requires
        d < 10,
    ensures
        r@ == seq![dec_digit(d as int)],
{
    proof {
        reveal_strlit("0");
        reveal_strlit("1");
        reveal_strlit("2");
        reveal_strlit("3");
        reveal_strlit("4");
        reveal_strlit("5");
        reveal_strlit("6");
        reveal_strlit("7");
        reveal_strlit("8");
        reveal_strlit("9");
    }
    match d {
        0 => "0",
        1 => "1",
        2 => "2",
        3 => "3",
        4 => "4",
        5 => "5",
        6 => "6",
        7 => "7",
        8 => "8",
        _ => "9",
    }
}

/// Renders a verse, chapter or section number as its decimal numeral.
pub fn u8_to_string(n: u8) -> (r: String)
    ensures
        r@ == dec_of(n as int),
{
    let mut s = String::new();
    if n < 10 {
        s.append(dec_digit_str(n));
        proof {
            assert(s@ =~= dec_of(n as int));
        }
    } else if n < 100 {
        s.append(dec_digit_str(n / 10));
        s.append(dec_digit_str(n % 10));
        proof {
            reveal_with_fuel(dec_of, 2);
            assert(s@ =~= dec_of(n as int));
        }
    } else {
        let q = n / 10;
        s.append(dec_digit_str(q / 10));
        s.append(dec_digit_str(q % 10));
        s.append(dec_digit_str(n % 10));
        proof {
            reveal_with_fuel(dec_of, 3);
            assert(dec_of(n as int) == dec_of(q as int) + seq![dec_digit(n as int % 10)]);
            assert(s@ =~= dec_of(n as int));
        }
    }
    s
}

} // verus!
