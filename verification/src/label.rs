//! Verified decimal formatting for the smoother's textual label.

use vstd::prelude::*;
use vstd::string::*;

verus! {

/// The decimal digit character for `d` in `0 .. 10`.
pub open spec fn spec_digit_char(d: int) -> char {
    if d == 0 {
        '0'
    } else if d == 1 {
        '1'
    } else if d == 2 {
        '2'
    } else if d == 3 {
        '3'
    } else if d == 4 {
        '4'
    } else if d == 5 {
        '5'
    } else if d == 6 {
        '6'
    } else if d == 7 {
        '7'
    } else if d == 8 {
        '8'
    } else {
        '9'
    }
}

/// The decimal digits of a nonnegative integer, most significant first, with
/// no sign and no padding.
pub open spec fn spec_decimal(n: int) -> Seq<char>
    decreases n,
{
    if n < 10 {
        seq![spec_digit_char(n)]
    } else {
        spec_decimal(n / 10) + seq![spec_digit_char(n % 10)]
    }
}

/// The textual representation of a smoother with period `length`.
pub open spec fn spec_label(length: u32) -> Seq<char> {
    "EMA("@ + spec_decimal(length as int) + ")"@
}

/// Returns the single decimal digit `d` as a string.
fn digit_str(d: u32) -> (r: &'static str)
    requires
        d < 10,
    ensures
        r@ == seq![spec_digit_char(d as int)],
{
    let r: &'static str = if d == 0 {
        "0"
    } else if d == 1 {
        "1"
    } else if d == 2 {
        "2"
    } else if d == 3 {
        "3"
    } else if d == 4 {
        "4"
    } else if d == 5 {
        "5"
    } else if d == 6 {
        "6"
    } else if d == 7 {
        "7"
    } else if d == 8 {
        "8"
    } else {
        "9"
    };
    proof {
        reveal_strlit("0");
        reveal_strlit("1");
        reveal_strlit("2");
        reveal_strlit("3");
        reveal_strlit("4");
        reveal_strlit("5");
        reveal_strlit("6");
        reveal_strlit("7");
        reveal_strlit("8");
        reveal_strlit("9");
        assert(r@ =~= seq![spec_digit_char(d as int)]);
    }
    r
}

/// Formats `n` in decimal, most significant digit first.
pub(crate) fn decimal_string(n: u32) -> (r: String)
    ensures
        r@ == spec_decimal(n as int),
{
    let mut v: u32 = n;
    let mut s = String::new();
    proof {
        assert(spec_decimal(v as int) + s@ =~= spec_decimal(n as int));
    }
    loop
        invariant
            spec_decimal(v as int) + s@ == spec_decimal(n as int),
        decreases v,
    {
        let d = v % 10;
        let digit = String::from_str(digit_str(d));
        let extended = digit.concat(s.as_str());
        if v < 10 {
            proof {
                assert(extended@ =~= spec_decimal(n as int));
            }
            return extended;
        }
        proof {
            assert(spec_decimal((v / 10) as int) + extended@ =~= spec_decimal(n as int));
        }
        s = extended;
        v = v / 10;
    }
}

} // verus!
