//! Decimal rendering of the integer fields of the report, proved to match
//! the usual base-ten notation: no leading zeros, a leading `-` for negative
//! values, `0` for zero.

use vstd::prelude::*;

verus! {

/// The decimal digit character for a value below ten.
pub open spec fn dec_digit(d: int) -> char
    recommends
        0 <= d < 10,
{
    if d == 0 {
        '0'
    } else if d == 1 {
        '1'
    } else if d == 2 {
        '2'
    } else if d == 3 {
        '3'
    } else if d == 4 {
        '4'
    } else if d == 5 {
        '5'
    } else if d == 6 {
        '6'
    } else if d == 7 {
        '7'
    } else if d == 8 {
        '8'
    } else {
        '9'
    }
}

/// The base-ten rendering of a non-negative integer, most significant digit
/// first and without leading zeros.
pub open spec fn dec_str_of(n: int) -> Seq<char>
    recommends
        n >= 0,
    decreases n,
{
    if n < 10 {
        seq![dec_digit(n)]
    } else {
        dec_str_of(n / 10).push(dec_digit(n % 10))
    }
}

/// The base-ten rendering of an integer: a leading `-` for negative values.
pub open spec fn int_str_of(n: int) -> Seq<char> {
    if n < 0 {
        seq!['-'] + dec_str_of(-n)
    } else {
        dec_str_of(n)
    }
}

/// The one-character string for a decimal digit.
fn digit_str(d: u64) -> (r: &'static str)
    requires
        d < 10,
    ensures
        r@ == seq![dec_digit(d as int)],
{
    proof {
        reveal_strlit("0");
        reveal_strlit("1");
        reveal_strlit("2");
        reveal_strlit("3");
        reveal_strlit("4");
        reveal_strlit("5");
        reveal_strlit("6");
        reveal_strlit("7");
        reveal_strlit("8");
        reveal_strlit("9");
    }
    match d {
        0 => "0",
        1 => "1",
        2 => "2",
        3 => "3",
        4 => "4",
        5 => "5",
        6 => "6",
        7 => "7",
        8 => "8",
        _ => "9",
    }
}

/// Renders an unsigned integer in base ten.
pub fn u64_to_string(n: u64) -> (r: String)
    ensures
        r@ == dec_str_of(n as int),
    decreases n,
{
    if n < 10 {
        String::from_str(digit_str(n))
    } else {
        let mut s = u64_to_string(n / 10);
        s.append(digit_str(n % 10));
        proof {
            assert(s@ =~= dec_str_of(n as int));
        }
        s
    }
}

/// Renders an unsigned 32-bit integer in base ten.
pub fn u32_to_string(n: u32) -> (r: String)
    ensures
        r@ == dec_str_of(n as int),
{
    u64_to_string(n as u64)
}

/// Renders a signed 32-bit integer in base ten, with a leading `-` when
/// negative.
pub fn i32_to_string(n: i32) -> (r: String)
    ensures
        r@ == int_str_of(n as int),
{
    if n >= 0 {
        u64_to_string(n as u64)
    } else {
        let magnitude: u64 = (-(n as i64)) as u64;
        let mut s = String::from_str("-");
        let rest = u64_to_string(magnitude);
        s.append(rest.as_str());
        proof {
            reveal_strlit("-");
            assert(s@ =~= int_str_of(n as int));
        }
        s
    }
}

} // verus!
