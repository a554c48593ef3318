//! Decimal rendering of unsigned integers.

use vstd::prelude::*;
use vstd::string::*;

verus! {

/// The character that stands for a decimal digit.
pub open spec fn digit_char(d: int) -> char {
    if d == 0 {
        '0'
    } else if d == 1 {
        '1'
    } else if d == 2 {
        '2'
    } else if d == 3 {
        '3'
    } else if d == 4 {
        '4'
    } else if d == 5 {
        '5'
    } else if d == 6 {
        '6'
    } else if d == 7 {
        '7'
    } else if d == 8 {
        '8'
    } else {
        '9'
    }
}

/// The decimal numeral of `n`: most significant digit first, no leading
/// zeros, `"0"` for zero.
pub open spec fn decimal(n: nat) -> Seq<char>
    decreases n,
{
    if n < 10 {
        seq![digit_char(n as int)]
    } else {
        decimal(n / 10).push(digit_char((n % 10) as int))
    }
}

/// The one-character text of a decimal digit.
fn digit_str(d: u32) -> (s: &'static str)
    requires
        d < 10,
    ensures
        s@ == seq![digit_char(d as int)],
{
    proof {
        reveal_strlit("0");
        reveal_strlit("1");
        reveal_strlit("2");
        reveal_strlit("3");
        reveal_strlit("4");
        reveal_strlit("5");
        reveal_strlit("6");
        reveal_strlit("7");
        reveal_strlit("8");
        reveal_strlit("9");
    }
    let s = if d == 0 {
        "0"
    } else if d == 1 {
        "1"
    } else if d == 2 {
        "2"
    } else if d == 3 {
        "3"
    } else if d == 4 {
        "4"
    } else if d == 5 {
        "5"
    } else if d == 6 {
        "6"
    } else if d == 7 {
        "7"
    } else if d == 8 {
        "8"
    } else {
        "9"
    };
    assert(s@ =~= seq![digit_char(d as int)]);
    s
}

/// Appends the decimal numeral of `n` to `out`.
pub fn push_decimal(out: &mut String, n: u32)
    ensures
        final(out)@ == old(out)@ + decimal(n as nat),
    decreases n,
{
    if n >= 10 {
        push_decimal(out, n / 10);
    }
    out.append(digit_str(n % 10));
    proof {
        if n >= 10 {
            assert(old(out)@ + decimal((n / 10) as nat) + seq![digit_char((n % 10) as int)]
                =~= old(out)@ + decimal(n as nat));
        } else {
            assert(n % 10 == n);
        }
    }
}

/// The decimal numeral of `n` as a string.
pub fn decimal_string(n: u32) -> (s: String)
    ensures
        s@ == decimal(n as nat),
{
    let mut s = String::new();
    push_decimal(&mut s, n);
    assert(Seq::<char>::empty() + decimal(n as nat) =~= decimal(n as nat));
    s
}

} // verus!
