//! Decimal rendering of integers, used by the error messages.

use vstd::prelude::*;

verus! {

/// The character for one decimal digit.
pub open spec fn spec_digit_char(d: int) -> char {
    if d == 0 {
        '0'
    } else if d == 1 {
        '1'
    } else if d == 2 {
        '2'
    } else if d == 3 {
        '3'
    } else if d == 4 {
        '4'
    } else if d == 5 {
        '5'
    } else if d == 6 {
        '6'
    } else if d == 7 {
        '7'
    } else if d == 8 {
        '8'
    } else {
        '9'
    }
}

/// The decimal digit sequence of a non-negative integer, most
/// significant digit first.
pub open spec fn spec_decimal_nat(n: int) -> Seq<char>
    decreases n,
{
    if n < 10 {
        seq![spec_digit_char(n)]
    } else {
        spec_decimal_nat(n / 10).push(spec_digit_char(n % 10))
    }
}

/// The decimal rendering of an integer, with a leading minus sign when
/// it is negative.
pub open spec fn spec_decimal(v: int) -> Seq<char> {
    if v < 0 {
        seq!['-'] + spec_decimal_nat(-v)
    } else {
        spec_decimal_nat(v)
    }
}

/// One decimal digit as a string slice.
fn digit_str(d: u64) -> (r: &'static str)
    requires
        d < 10,
    ensures
        r@ == seq![spec_digit_char(d as int)],
{
    proof {
        reveal_strlit("0");
        reveal_strlit("1");
        reveal_strlit("2");
        reveal_strlit("3");
        reveal_strlit("4");
        reveal_strlit("5");
        reveal_strlit("6");
        reveal_strlit("7");
        reveal_strlit("8");
        reveal_strlit("9");
    }
    let r: &'static str = if d == 0 {
        "0"
    } else if d == 1 {
        "1"
    } else if d == 2 {
        "2"
    } else if d == 3 {
        "3"
    } else if d == 4 {
        "4"
    } else if d == 5 {
        "5"
    } else if d == 6 {
        "6"
    } else if d == 7 {
        "7"
    } else if d == 8 {
        "8"
    } else {
        "9"
    };
    proof {
        assert(r@ =~= seq![spec_digit_char(d as int)]);
    }
    r
}

/// Renders a non-negative integer in decimal.
fn u64_decimal(n: u64) -> (r: String)
    ensures
        r@ == spec_decimal_nat(n as int),
    decreases n,
{
    if n < 10 {
        digit_str(n).to_owned()
    } else {
        let mut r = u64_decimal(n / 10);
        r.append(digit_str(n % 10));
        proof {
            assert(r@ =~= spec_decimal_nat(n as int));
        }
        r
    }
}

/// Renders a signed integer in decimal, as the native configuration
/// values travel in messages.
pub fn i32_decimal(v: i32) -> (r: String)
    ensures
        r@ == spec_decimal(v as int),
{
    if v < 0 {
        let magnitude: i64 = -(v as i64);
        let mut r = "-".to_owned();
        let digits = u64_decimal(magnitude as u64);
        r.append(digits.as_str());
        proof {
            reveal_strlit("-");
            assert(r@ =~= spec_decimal(v as int));
        }
        r
    } else {
        u64_decimal(v as u64)
    }
}

} // verus!
