//! Rendering of integers and milli fixed-point values as decimal text.

use vstd::prelude::*;

verus! {

/// The decimal digit character for `d`.
pub open spec fn spec_digit(d: int) -> char
    recommends
        0 <= d < 10,
{
    if d == 0 {
        '0'
    } else if d == 1 {
        '1'
    } else if d == 2 {
        '2'
    } else if d == 3 {
        '3'
    } else if d == 4 {
        '4'
    } else if d == 5 {
        '5'
    } else if d == 6 {
        '6'
    } else if d == 7 {
        '7'
    } else if d == 8 {
        '8'
    } else {
        '9'
    }
}

/// The decimal digit string of `n`, most significant digit first, no
/// leading zeros (except for `n == 0` itself).
pub open spec fn spec_digits(n: int) -> Seq<char>
    recommends
        n >= 0,
    decreases n,
{
    if n < 10 {
        seq![spec_digit(n)]
    } else {
        spec_digits(n / 10) + seq![spec_digit(n % 10)]
    }
}

/// The rendering of the milli fixed-point value `n` with exactly three
/// digits after the decimal point, as `{:.3}` formatting would print
/// `n / 1000.0`.
pub open spec fn spec_milli(n: int) -> Seq<char> {
    let sign: Seq<char> = if n < 0 {
        seq!['-']
    } else {
        Seq::empty()
    };
    let a = if n < 0 {
        -n
    } else {
        n
    };
    sign + spec_digits(a / 1000) + seq!['.'] + spec_frac3(a % 1000)
}

/// A fractional part of thousandths, zero-padded to three digits.
pub open spec fn spec_frac3(f: int) -> Seq<char>
    recommends
        0 <= f < 1000,
{
    if f < 10 {
        seq!['0', '0'] + spec_digits(f)
    } else if f < 100 {
        seq!['0'] + spec_digits(f)
    } else {
        spec_digits(f)
    }
}

/// The one-character string slice for digit `d`.
fn digit_str(d: u64) -> (r: &'static str)
    requires
        d < 10,
    ensures
        r@ == seq![spec_digit(d as int)],
{
    proof {
        reveal_strlit("0");
        reveal_strlit("1");
        reveal_strlit("2");
        reveal_strlit("3");
        reveal_strlit("4");
        reveal_strlit("5");
        reveal_strlit("6");
        reveal_strlit("7");
        reveal_strlit("8");
        reveal_strlit("9");
    }
    let r = if d == 0 {
        "0"
    } else if d == 1 {
        "1"
    } else if d == 2 {
        "2"
    } else if d == 3 {
        "3"
    } else if d == 4 {
        "4"
    } else if d == 5 {
        "5"
    } else if d == 6 {
        "6"
    } else if d == 7 {
        "7"
    } else if d == 8 {
        "8"
    } else {
        "9"
    };
    proof {
        assert(r@ =~= seq![spec_digit(d as int)]);
    }
    r
}

/// Render `n` in decimal.
pub fn u64_to_string(n: u64) -> (s: String)
    ensures
        s@ == spec_digits(n as int),
    decreases n,
{
    if n < 10 {
        let mut s = String::new();
        s.append(digit_str(n));
        proof {
            assert(s@ =~= spec_digits(n as int));
        }
        s
    } else {
        let mut s = u64_to_string(n / 10);
        s.append(digit_str(n % 10));
        proof {
            assert(s@ =~= spec_digits(n as int));
        }
        s
    }
}

/// Render the milli fixed-point value `n` with three digits after the
/// decimal point.
pub fn milli_to_string(n: i64) -> (s: String)
    requires
        n > i64::MIN,
    ensures
        s@ == spec_milli(n as int),
{
    proof {
        reveal_strlit("-");
        reveal_strlit(".");
        reveal_strlit("00");
        reveal_strlit("0");
        reveal_strlit("");
    }
    let mut s = String::new();
    let a: u64 = if n < 0 {
        s.append("-");
        (-n) as u64
    } else {
        n as u64
    };
    let whole = u64_to_string(a / 1000);
    s.append(whole.as_str());
    s.append(".");
    let f = a % 1000;
    if f < 10 {
        s.append("00");
    } else if f < 100 {
        s.append("0");
    }
    let frac = u64_to_string(f);
    s.append(frac.as_str());
    proof {
        assert(s@ =~= spec_milli(n as int));
    }
    s
}

} // verus!
