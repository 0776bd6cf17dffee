//! Decimal text of an index, and the digit characters that the
//! character generator hands out.

use vstd::prelude::*;
use vstd::string::*;

verus! {

/// The character for one decimal digit; everything above nine maps to
/// `'a'`, the fallback the single-character generator uses.
pub open spec fn digit_char(d: nat) -> char {
    if d == 0 {
        '0'
    } else if d == 1 {
        '1'
    } else if d == 2 {
        '2'
    } else if d == 3 {
        '3'
    } else if d == 4 {
        '4'
    } else if d == 5 {
        '5'
    } else if d == 6 {
        '6'
    } else if d == 7 {
        '7'
    } else if d == 8 {
        '8'
    } else if d == 9 {
        '9'
    } else {
        'a'
    }
}

/// The decimal text of `n`, most significant digit first, no sign and
/// no leading zero except for `n == 0` itself.
pub open spec fn decimal_seq(n: nat) -> Seq<char>
    decreases n,
{
    if n < 10 {
        seq![digit_char(n)]
    } else {
        decimal_seq(n / 10).push(digit_char(n % 10))
    }
}

fn digit_str(d: usize) -> (r: &'static str)
    requires
        d < 10,
    ensures
        r@ == seq![digit_char(d as nat)],
{
    let r: &'static str = if d == 0 {
        "0"
    } else if d == 1 {
        "1"
    } else if d == 2 {
        "2"
    } else if d == 3 {
        "3"
    } else if d == 4 {
        "4"
    } else if d == 5 {
        "5"
    } else if d == 6 {
        "6"
    } else if d == 7 {
        "7"
    } else if d == 8 {
        "8"
    } else {
        "9"
    };
    proof {
        reveal_strlit("0");
        reveal_strlit("1");
        reveal_strlit("2");
        reveal_strlit("3");
        reveal_strlit("4");
        reveal_strlit("5");
        reveal_strlit("6");
        reveal_strlit("7");
        reveal_strlit("8");
        reveal_strlit("9");
        assert(r@ =~= seq![digit_char(d as nat)]);
    }
    r
}

/// The decimal text of `n` as an owned string.
pub fn decimal_string(n: usize) -> (s: String)
    ensures
        s@ == decimal_seq(n as nat),
    decreases n,
{
    if n < 10 {
        String::from_str(digit_str(n))
    } else {
        let mut s = decimal_string(n / 10);
        s.append(digit_str(n % 10));
        proof {
            assert(s@ =~= decimal_seq(n as nat));
        }
        s
    }
}

/// The decimal digit character of `i` for `i <= 9`, and `'a'` for any
/// larger index.
pub fn digit_or_fallback(i: usize) -> (c: char)
    ensures
        c == digit_char(i as nat),
{
    if i < 10 {
        digit_str(i).get_char(0)
    } else {
        'a'
    }
}

} // verus!
