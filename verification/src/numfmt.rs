//! Decimal rendering of the integer identifiers and scores that appear in
//! report lines and request URLs.

use vstd::prelude::*;
use vstd::string::*;

verus! {

/// The decimal digit character for one digit value.
pub open spec fn digit_of(d: int) -> char
    recommends
        0 <= d < 10,
{
    if d == 0 {
        '0'
    } else if d == 1 {
        '1'
    } else if d == 2 {
        '2'
    } else if d == 3 {
        '3'
    } else if d == 4 {
        '4'
    } else if d == 5 {
        '5'
    } else if d == 6 {
        '6'
    } else if d == 7 {
        '7'
    } else if d == 8 {
        '8'
    } else {
        '9'
    }
}

/// The usual decimal representation of a non-negative integer: most
/// significant digit first, no leading zeros (except for zero itself).
pub open spec fn dec_rep(n: int) -> Seq<char>
    recommends
        n >= 0,
    decreases n,
{
    if n < 10 {
        seq![digit_of(n)]
    } else {
        dec_rep(n / 10).push(digit_of(n % 10))
    }
}

/// The decimal representation of a signed integer: a minus sign before the
/// magnitude for negative values.
pub open spec fn int_rep(n: int) -> Seq<char> {
    if n < 0 {
        seq!['-'] + dec_rep(-n)
    } else {
        dec_rep(n)
    }
}

/// The one-character string for one digit value.
fn digit_str(d: u32) -> (r: String)
    requires
        d < 10,
    ensures
        r@ == seq![digit_of(d as int)],
{
    proof {
        reveal_strlit("0");
        reveal_strlit("1");
        reveal_strlit("2");
        reveal_strlit("3");
        reveal_strlit("4");
        reveal_strlit("5");
        reveal_strlit("6");
        reveal_strlit("7");
        reveal_strlit("8");
        reveal_strlit("9");
    }
    let s: &str = match d {
        0 => "0",
        1 => "1",
        2 => "2",
        3 => "3",
        4 => "4",
        5 => "5",
        6 => "6",
        7 => "7",
        8 => "8",
        _ => "9",
    };
    let r = String::from_str(s);
    proof {
        assert(r@ =~= seq![digit_of(d as int)]);
    }
    r
}

/// Renders an unsigned value in decimal.
pub fn u32_to_string(n: u32) -> (r: String)
    ensures
        r@ == dec_rep(n as int),
    decreases n,
{
    let d = digit_str(n % 10);
    if n < 10 {
        proof {
            assert(d@ =~= dec_rep(n as int));
        }
        d
    } else {
        let prefix = u32_to_string(n / 10);
        let r = prefix.concat(d.as_str());
        proof {
            assert(r@ =~= dec_rep(n as int));
        }
        r
    }
}

/// Renders a signed value in decimal, with a minus sign when negative.
pub fn i32_to_string(n: i32) -> (r: String)
    ensures
        r@ == int_rep(n as int),
{
    if n >= 0 {
        u32_to_string(n as u32)
    } else {
        let m: i64 = -(n as i64);
        let mag: u32 = m as u32;
        let r = String::from_str("-").concat(u32_to_string(mag).as_str());
        proof {
            reveal_strlit("-");
            assert(r@ =~= int_rep(n as int));
        }
        r
    }
}

} // verus!
