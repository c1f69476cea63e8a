use vstd::prelude::*;

use vstd::string::StrSliceExecFns;
use vstd::string::StringExecFns;

verus! {

/// The decimal digit character for a value below ten.
pub open spec fn spec_digit(d: int) -> char
    recommends
        0 <= d < 10,
{
    if d == 0 {
        '0'
    } else if d == 1 {
        '1'
    } else if d == 2 {
        '2'
    } else if d == 3 {
        '3'
    } else if d == 4 {
        '4'
    } else if d == 5 {
        '5'
    } else if d == 6 {
        '6'
    } else if d == 7 {
        '7'
    } else if d == 8 {
        '8'
    } else {
        '9'
    }
}

/// The decimal digit string of a non-negative value, most significant
/// digit first, without leading zeros (a lone `0` for zero).
pub open spec fn spec_udecimal(n: int) -> Seq<char>
    recommends
        n >= 0,
    decreases n,
{
    if n < 10 {
        seq![spec_digit(n)]
    } else {
        spec_udecimal(n / 10) + seq![spec_digit(n % 10)]
    }
}

/// The decimal string of a value, with a leading minus sign when it is
/// negative.
pub open spec fn spec_decimal(v: int) -> Seq<char> {
    if v < 0 {
        seq!['-'] + spec_udecimal(-v)
    } else {
        spec_udecimal(v)
    }
}

/// A one-character string slice holding the given decimal digit.
fn digit_str(d: u64) -> (s: &'static str)
    requires
        d < 10,
    ensures
        s@ == seq![spec_digit(d as int)],
{
    proof {
        reveal_strlit("0");
        reveal_strlit("1");
        reveal_strlit("2");
        reveal_strlit("3");
        reveal_strlit("4");
        reveal_strlit("5");
        reveal_strlit("6");
        reveal_strlit("7");
        reveal_strlit("8");
        reveal_strlit("9");
    }
    let s: &'static str = match d {
        0 => "0",
        1 => "1",
        2 => "2",
        3 => "3",
        4 => "4",
        5 => "5",
        6 => "6",
        7 => "7",
        8 => "8",
        _ => "9",
    };
    proof {
        assert(s@ =~= seq![spec_digit(d as int)]);
    }
    s
}

/// The decimal digit string of a non-negative value.
pub fn u64_decimal_string(n: u64) -> (s: String)
    ensures
        s@ == spec_udecimal(n as int),
    decreases n,
{
    if n < 10 {
        let s = String::from_str(digit_str(n));
        proof {
            assert(s@ =~= spec_udecimal(n as int));
        }
        s
    } else {
        let prefix = u64_decimal_string(n / 10);
        let s = prefix.concat(digit_str(n % 10));
        proof {
            assert(s@ =~= spec_udecimal(n as int));
        }
        s
    }
}

/// The decimal string of a component that carries the whole value's sign:
/// negative and non-zero prints a minus sign before its magnitude.
pub fn signed_component_string(negative: bool, magnitude: u64) -> (s: String)
    ensures
        s@ == spec_decimal(
            if negative {
                -(magnitude as int)
            } else {
                magnitude as int
            },
        ),
{
    if negative && magnitude > 0 {
        proof {
            reveal_strlit("-");
        }
        let sign = String::from_str("-");
        let digits = u64_decimal_string(magnitude);
        let s = sign.concat(digits.as_str());
        proof {
            assert(("-")@ =~= seq!['-']);
            assert(s@ =~= spec_decimal(-(magnitude as int)));
        }
        s
    } else {
        u64_decimal_string(magnitude)
    }
}

} // verus!
