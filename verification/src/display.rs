//! Rendering integers as decimal text, for the display forms the library's
//! types offer.

use vstd::prelude::*;
use vstd::string::StringExecFns;

verus! {

/// The digit character for a value below ten.
pub open spec fn digit_char(d: int) -> char {
    ((48 + d) as u8) as char
}

/// The decimal digits of a nonnegative number, most significant first.
pub open spec fn spec_decimal(n: nat) -> Seq<char>
    decreases n,
{
    if n < 10 {
        seq![digit_char(n as int)]
    } else {
        spec_decimal(n / 10).push(digit_char((n % 10) as int))
    }
}

/// The decimal rendering of an integer: a minus sign before the digits of
/// its magnitude when negative.
pub open spec fn spec_int_decimal(v: int) -> Seq<char> {
    if v < 0 {
        seq!['-'] + spec_decimal((-v) as nat)
    } else {
        spec_decimal(v as nat)
    }
}

/// The one-character string for a digit value.
fn digit_str(d: u32) -> (r: &'static str)
    requires
        d < 10,
    ensures
        r@ =~= seq![digit_char(d as int)],
{
    proof {
        reveal_strlit("0");
        reveal_strlit("1");
        reveal_strlit("2");
        reveal_strlit("3");
        reveal_strlit("4");
        reveal_strlit("5");
        reveal_strlit("6");
        reveal_strlit("7");
        reveal_strlit("8");
        reveal_strlit("9");
    }
    if d == 0 {
        "0"
    } else if d == 1 {
        "1"
    } else if d == 2 {
        "2"
    } else if d == 3 {
        "3"
    } else if d == 4 {
        "4"
    } else if d == 5 {
        "5"
    } else if d == 6 {
        "6"
    } else if d == 7 {
        "7"
    } else if d == 8 {
        "8"
    } else {
        "9"
    }
}

/// The decimal string of a number.
pub fn u64_decimal(n: u64) -> (r: String)
    ensures
        r@ == spec_decimal(n as nat),
    decreases n,
{
    if n < 10 {
        String::from_str(digit_str(n as u32))
    } else {
        let mut prefix = u64_decimal(n / 10);
        prefix.append(digit_str((n % 10) as u32));
        proof {
            assert(prefix@ =~= spec_decimal(n as nat));
        }
        prefix
    }
}

/// The decimal string of a signed number, minus sign included.
pub fn i32_decimal(v: i32) -> (r: String)
    ensures
        r@ == spec_int_decimal(v as int),
{
    if v >= 0 {
        u64_decimal(v as u64)
    } else {
        let magnitude: u64 = (-(v as i64)) as u64;
        let mut r = String::from_str("-");
        proof {
            reveal_strlit("-");
        }
        let digits = u64_decimal(magnitude);
        r.append(digits.as_str());
        proof {
            assert(r@ =~= spec_int_decimal(v as int));
        }
        r
    }
}

/// A number below one hundred as exactly two digits, zero-padded.
pub fn two_digit(n: u32) -> (r: String)
    requires
        n < 100,
    ensures
        r@ == seq![digit_char(n as int / 10), digit_char(n as int % 10)],
{
    let mut r = String::from_str(digit_str(n / 10));
    r.append(digit_str(n % 10));
    proof {
        assert(r@ =~= seq![digit_char(n as int / 10), digit_char(n as int % 10)]);
    }
    r
}

} // verus!
