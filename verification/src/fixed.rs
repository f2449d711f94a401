//! Arithmetic on thousandths, and how they are written out.

use vstd::prelude::*;
use vstd::string::StringExecFns;

verus! {

/// The number of thousandths in one unit.
pub const UNIT: i32 = 1_000;

/// `v` is a 32-bit number.
pub open spec fn fits_i32(v: int) -> bool {
    i32::MIN <= v <= i32::MAX
}

/// `v` is a 64-bit number.
pub open spec fn fits_i64(v: int) -> bool {
    i64::MIN <= v <= i64::MAX
}

/// The quotient of `a` by `b`, rounded toward zero.
pub open spec fn quotient(a: int, b: int) -> int {
    if a >= 0 {
        a / b
    } else {
        -((-a) / b)
    }
}

/// What is left of `a` after `quotient(a, b)` times `b`, with the sign of
/// `a`.
pub open spec fn remainder(a: int, b: int) -> int {
    if a >= 0 {
        a % b
    } else {
        -((-a) % b)
    }
}

/// The quotient of `a` by a positive `b`, rounded to the nearest integer,
/// halves away from zero.
pub open spec fn rounded_quotient(a: int, b: int) -> int {
    if a >= 0 {
        (2 * a + b) / (2 * b)
    } else {
        -((2 * (-a) + b) / (2 * b))
    }
}

/// The quotient rounded toward zero is no larger in magnitude than the
/// dividend.
pub proof fn lemma_quotient_bounded(a: int, b: int)
    requires
        b != 0,
    ensures
        a >= 0 ==> -a <= quotient(a, b) <= a,
        a <= 0 ==> a <= quotient(a, b) <= -a,
{
    let m: int = if a >= 0 { a } else { -a };
    assert(-m <= m / b <= m) by (nonlinear_arith)
        requires
            m >= 0,
            b != 0,
    ;
}

/// The character for a digit.
pub open spec fn digit(d: int) -> char {
    if d == 0 {
        '0'
    } else if d == 1 {
        '1'
    } else if d == 2 {
        '2'
    } else if d == 3 {
        '3'
    } else if d == 4 {
        '4'
    } else if d == 5 {
        '5'
    } else if d == 6 {
        '6'
    } else if d == 7 {
        '7'
    } else if d == 8 {
        '8'
    } else {
        '9'
    }
}

/// A number in decimal digits, without leading zeros.
pub open spec fn decimal(n: nat) -> Seq<char>
    decreases n,
{
    if n < 10 {
        seq![digit(n as int)]
    } else {
        decimal(n / 10).push(digit((n % 10) as int))
    }
}

/// A count of thousandths written as a decimal fraction with three places.
pub open spec fn decimal_thousandths(n: nat) -> Seq<char> {
    let part = n % 1_000;
    decimal(n / 1_000) + seq![
        '.',
        digit((part / 100) as int),
        digit((part / 10 % 10) as int),
        digit((part % 10) as int),
    ]
}

/// The whole number nearest to a count of thousandths; a count half way
/// between two goes to the even one.
pub open spec fn nearest_whole(n: nat) -> nat {
    let whole = n / 1_000;
    let part = n % 1_000;
    if part > 500 || (part == 500 && whole % 2 == 1) {
        whole + 1
    } else {
        whole
    }
}

/// A count of thousandths written as the nearest whole number, with a
/// minus sign where the count is negative.
pub open spec fn decimal_whole(v: int) -> Seq<char> {
    if v < 0 {
        seq!['-'] + decimal(nearest_whole((-v) as nat))
    } else {
        decimal(nearest_whole(v as nat))
    }
}

fn digit_str(d: u64) -> (s: &'static str)
    requires
        d < 10,
    ensures
        s@ == seq![digit(d as int)],
{
    proof {
        reveal_strlit("0");
        reveal_strlit("1");
        reveal_strlit("2");
        reveal_strlit("3");
        reveal_strlit("4");
        reveal_strlit("5");
        reveal_strlit("6");
        reveal_strlit("7");
        reveal_strlit("8");
        reveal_strlit("9");
    }
    let s = if d == 0 {
        "0"
    } else if d == 1 {
        "1"
    } else if d == 2 {
        "2"
    } else if d == 3 {
        "3"
    } else if d == 4 {
        "4"
    } else if d == 5 {
        "5"
    } else if d == 6 {
        "6"
    } else if d == 7 {
        "7"
    } else if d == 8 {
        "8"
    } else {
        "9"
    };
    assert(s@ =~= seq![digit(d as int)]);
    s
}

/// Appends a number in decimal digits.
pub fn append_decimal(text: &mut String, n: u64)
    ensures
        final(text)@ == old(text)@ + decimal(n as nat),
    decreases n,
{
    if n >= 10 {
        append_decimal(text, n / 10);
    }
    text.append(digit_str(n % 10));
    assert(text@ =~= old(text)@ + decimal(n as nat));
}

/// Appends a count of thousandths as a decimal fraction with three places.
pub fn append_decimal_thousandths(text: &mut String, n: u64)
    ensures
        final(text)@ == old(text)@ + decimal_thousandths(n as nat),
{
    proof {
        reveal_strlit(".");
    }
    let part: u64 = n % 1_000;
    append_decimal(text, n / 1_000);
    text.append(".");
    text.append(digit_str(part / 100));
    text.append(digit_str(part / 10 % 10));
    text.append(digit_str(part % 10));
    assert(text@ =~= old(text)@ + decimal_thousandths(n as nat));
}

/// Appends a count of thousandths as the nearest whole number.
pub fn append_decimal_whole(text: &mut String, v: i64)
    ensures
        final(text)@ == old(text)@ + decimal_whole(v as int),
{
    proof {
        reveal_strlit("-");
    }
    let size: u64 = if v < 0 {
        text.append("-");
        (-(v as i128)) as u64
    } else {
        v as u64
    };
    let whole: u64 = size / 1_000;
    let part: u64 = size % 1_000;
    if part > 500 || (part == 500 && whole % 2 == 1) {
        append_decimal(text, whole + 1);
    } else {
        append_decimal(text, whole);
    }
    assert(text@ =~= old(text)@ + decimal_whole(v as int));
}

} // verus!
