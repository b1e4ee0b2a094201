//! Decimal rendering of numbers for question prompts and choice labels.

use vstd::prelude::*;
use vstd::string::StringExecFns;

verus! {

/// Character for one decimal digit value.
pub open spec fn spec_digit(d: int) -> char {
    if d == 0 {
        '0'
    } else if d == 1 {
        '1'
    } else if d == 2 {
        '2'
    } else if d == 3 {
        '3'
    } else if d == 4 {
        '4'
    } else if d == 5 {
        '5'
    } else if d == 6 {
        '6'
    } else if d == 7 {
        '7'
    } else if d == 8 {
        '8'
    } else {
        '9'
    }
}

/// Decimal representation of a non-negative integer, most significant
/// digit first, with no sign and no leading zeros.
pub open spec fn spec_dec(n: int) -> Seq<char>
    decreases n,
{
    if n < 10 {
        seq![spec_digit(n)]
    } else {
        spec_dec(n / 10).push(spec_digit(n % 10))
    }
}

/// One-character string for a single decimal digit.
pub fn digit_str(d: u32) -> (s: &'static str)
    requires
        d < 10,
    ensures
        s@ == seq![spec_digit(d as int)],
{
    proof {
        reveal_strlit("0");
        reveal_strlit("1");
        reveal_strlit("2");
        reveal_strlit("3");
        reveal_strlit("4");
        reveal_strlit("5");
        reveal_strlit("6");
        reveal_strlit("7");
        reveal_strlit("8");
        reveal_strlit("9");
        assert("0"@ =~= seq![spec_digit(0)]);
        assert("1"@ =~= seq![spec_digit(1)]);
        assert("2"@ =~= seq![spec_digit(2)]);
        assert("3"@ =~= seq![spec_digit(3)]);
        assert("4"@ =~= seq![spec_digit(4)]);
        assert("5"@ =~= seq![spec_digit(5)]);
        assert("6"@ =~= seq![spec_digit(6)]);
        assert("7"@ =~= seq![spec_digit(7)]);
        assert("8"@ =~= seq![spec_digit(8)]);
        assert("9"@ =~= seq![spec_digit(9)]);
    }
    if d == 0 {
        "0"
    } else if d == 1 {
        "1"
    } else if d == 2 {
        "2"
    } else if d == 3 {
        "3"
    } else if d == 4 {
        "4"
    } else if d == 5 {
        "5"
    } else if d == 6 {
        "6"
    } else if d == 7 {
        "7"
    } else if d == 8 {
        "8"
    } else {
        "9"
    }
}

/// Renders `n` in decimal.
pub fn u32_to_string(n: u32) -> (s: String)
    ensures
        s@ == spec_dec(n as int),
    decreases n,
{
    if n < 10 {
        String::from_str(digit_str(n))
    } else {
        let mut s = u32_to_string(n / 10);
        let d = digit_str(n % 10);
        s.append(d);
        proof {
            assert(spec_dec((n / 10) as int) + d@ =~= spec_dec(n as int));
        }
        s
    }
}

} // verus!
