//! Numbers written out for display.

use vstd::prelude::*;
use vstd::string::*;

verus! {

/// The character of a decimal digit.
pub open spec fn digit_char(d: nat) -> char {
    seq!['0', '1', '2', '3', '4', '5', '6', '7', '8', '9'][d as int]
}

/// `n` in decimal, without leading zeros.
pub open spec fn decimal(n: nat) -> Seq<char>
    decreases n,
{
    if n < 10 {
        seq![digit_char(n)]
    } else {
        decimal(n / 10).push(digit_char(n % 10))
    }
}

/// `n / d` rounded to the nearest whole number, halves to the even one.
pub open spec fn round_half_even(n: nat, d: nat) -> nat
    recommends
        d > 0,
{
    let q = n / d;
    let r = n % d;
    if 2 * r > d || (2 * r == d && q % 2 == 1) {
        q + 1
    } else {
        q
    }
}

/// An amount of cents as the dashboard shows it: millions with one
/// decimal (`$1.5M`), thousands (`$150K`), or whole units (`$950`).
pub open spec fn currency_text(cents: nat) -> Seq<char> {
    if cents >= 100_000_000 {
        let tenths = round_half_even(cents, 10_000_000);
        "$"@ + decimal(tenths / 10) + "."@ + decimal(tenths % 10) + "M"@
    } else if cents >= 100_000 {
        "$"@ + decimal(round_half_even(cents, 100_000)) + "K"@
    } else {
        "$"@ + decimal(round_half_even(cents, 100))
    }
}

/// The one-character text of a decimal digit.
fn digit_str(d: u64) -> (r: &'static str)
    requires
        d < 10,
    ensures
        r@ == seq![digit_char(d as nat)],
{
    proof {
        reveal_strlit("0");
        reveal_strlit("1");
        reveal_strlit("2");
        reveal_strlit("3");
        reveal_strlit("4");
        reveal_strlit("5");
        reveal_strlit("6");
        reveal_strlit("7");
        reveal_strlit("8");
        reveal_strlit("9");
    }
    if d == 0 {
        "0"
    } else if d == 1 {
        "1"
    } else if d == 2 {
        "2"
    } else if d == 3 {
        "3"
    } else if d == 4 {
        "4"
    } else if d == 5 {
        "5"
    } else if d == 6 {
        "6"
    } else if d == 7 {
        "7"
    } else if d == 8 {
        "8"
    } else {
        "9"
    }
}

/// `n` written in decimal.
pub fn decimal_string(n: u64) -> (r: String)
    ensures
        r@ == decimal(n as nat),
    decreases n,
{
    if n < 10 {
        String::from_str(digit_str(n))
    } else {
        let head = decimal_string(n / 10);
        let r = head.concat(digit_str(n % 10));
        assert(r@ == decimal(n as nat));
        r
    }
}

/// `n / d` rounded to the nearest whole number, halves to the even one.
fn divide_rounded(n: u64, d: u64) -> (r: u64)
    requires
        d >= 2,
    ensures
        r == round_half_even(n as nat, d as nat),
{
    let q = n / d;
    let rem = n % d;
    assert(q < u64::MAX) by (nonlinear_arith)
        requires
            d >= 2,
            q == n / d,
    {
        assert(q * d <= n);
    }
    if rem > d - rem || (rem == d - rem && q % 2 == 1) {
        q + 1
    } else {
        q
    }
}

/// An amount of cents as the dashboard shows it.
pub fn format_currency(cents: u64) -> (r: String)
    ensures
        r@ == currency_text(cents as nat),
{
    proof {
        reveal_strlit("$");
        reveal_strlit(".");
        reveal_strlit("M");
        reveal_strlit("K");
    }
    let dollar = String::from_str("$");
    if cents >= 100_000_000 {
        let tenths = divide_rounded(cents, 10_000_000);
        let whole = decimal_string(tenths / 10);
        let fraction = decimal_string(tenths % 10);
        dollar.concat(whole.as_str()).concat(".").concat(fraction.as_str()).concat("M")
    } else if cents >= 100_000 {
        let thousands = decimal_string(divide_rounded(cents, 100_000));
        dollar.concat(thousands.as_str()).concat("K")
    } else {
        let units = decimal_string(divide_rounded(cents, 100));
        dollar.concat(units.as_str())
    }
}

} // verus!
