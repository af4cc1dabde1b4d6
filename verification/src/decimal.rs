//! Decimal rendering of integers as text.
//!
//! The transport layer embeds numbers in strings it must pin down exactly:
//! HTTP status codes inside error messages and numeric query parameters.
//! [`dec_of`] and [`dec_of_int`] are the mathematical statement of ordinary
//! base-ten notation; the executable functions here are proved to produce
//! exactly that notation.

use vstd::prelude::*;

verus! {

/// The character for a single decimal digit.
pub open spec fn digit_char(d: nat) -> char {
    if d == 0 {
        '0'
    } else if d == 1 {
        '1'
    } else if d == 2 {
        '2'
    } else if d == 3 {
        '3'
    } else if d == 4 {
        '4'
    } else if d == 5 {
        '5'
    } else if d == 6 {
        '6'
    } else if d == 7 {
        '7'
    } else if d == 8 {
        '8'
    } else {
        '9'
    }
}

/// Base-ten notation of a natural number: no sign, no leading zeros
/// (a single zero digit for zero itself).
pub open spec fn dec_of(n: nat) -> Seq<char>
    decreases n,
{
    if n < 10 {
        seq![digit_char(n)]
    } else {
        dec_of(n / 10).push(digit_char(n % 10))
    }
}

/// Base-ten notation of an integer: a leading minus sign for negatives.
pub open spec fn dec_of_int(v: int) -> Seq<char> {
    if v >= 0 {
        dec_of(v as nat)
    } else {
        seq!['-'] + dec_of((-v) as nat)
    }
}

/// The one-character string for a single decimal digit.
fn digit_str(d: u64) -> (r: &'static str)
    requires
        d < 10,
    ensures
        r@ =~= seq![digit_char(d as nat)],
{
    proof {
        reveal_strlit("0");
        reveal_strlit("1");
        reveal_strlit("2");
        reveal_strlit("3");
        reveal_strlit("4");
        reveal_strlit("5");
        reveal_strlit("6");
        reveal_strlit("7");
        reveal_strlit("8");
        reveal_strlit("9");
    }
    if d == 0 {
        "0"
    } else if d == 1 {
        "1"
    } else if d == 2 {
        "2"
    } else if d == 3 {
        "3"
    } else if d == 4 {
        "4"
    } else if d == 5 {
        "5"
    } else if d == 6 {
        "6"
    } else if d == 7 {
        "7"
    } else if d == 8 {
        "8"
    } else {
        "9"
    }
}

/// Renders an unsigned integer in base-ten notation.
pub fn u64_to_dec(n: u64) -> (r: String)
    ensures
        r@ == dec_of(n as nat),
    decreases n,
{
    if n < 10 {
        String::from_str(digit_str(n))
    } else {
        let mut s = u64_to_dec(n / 10);
        s.append(digit_str(n % 10));
        proof {
            assert(dec_of((n / 10) as nat) + seq![digit_char((n % 10) as nat)] =~= dec_of(
                (n / 10) as nat,
            ).push(digit_char((n % 10) as nat)));
        }
        s
    }
}

/// Renders a signed integer in base-ten notation.
pub fn i32_to_dec(v: i32) -> (r: String)
    ensures
        r@ == dec_of_int(v as int),
{
    if v >= 0 {
        u64_to_dec(v as u64)
    } else {
        let mag: u64 = (-(v as i64)) as u64;
        let mut s = String::from_str("-");
        s.append(u64_to_dec(mag).as_str());
        proof {
            reveal_strlit("-");
            assert("-"@ + dec_of(mag as nat) =~= seq!['-'] + dec_of((-(v as int)) as nat));
        }
        s
    }
}

} // verus!
