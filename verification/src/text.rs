//! Text helpers shared by the other modules.
use vstd::prelude::*;

verus! {

/// What `str::to_lowercase` makes of a text: its lowercase equivalent under
/// the Unicode case mappings.
pub uninterp spec fn lowercase_of(text: Seq<char>) -> Seq<char>;

/// What `str::to_uppercase` makes of a text: its uppercase equivalent under
/// the Unicode case mappings.
pub uninterp spec fn uppercase_of(text: Seq<char>) -> Seq<char>;

/// Calls `str::to_lowercase`. The result is a function of the text alone and
/// is known here only by its name, `lowercase_of`.
#[verifier::external_body]
pub(crate) fn to_lowercase(text: &str) -> (res: String)
    ensures
        res@ == lowercase_of(text@),
{
    text.to_lowercase()
}

/// Calls `str::to_uppercase`. The result is a function of the text alone and
/// is known here only by its name, `uppercase_of`.
#[verifier::external_body]
pub(crate) fn to_uppercase(text: &str) -> (res: String)
    ensures
        res@ == uppercase_of(text@),
{
    text.to_uppercase()
}

/// The numeral of one decimal digit.
pub open spec fn digit(d: nat) -> Seq<char> {
    if d == 0 {
        "0"@
    } else if d == 1 {
        "1"@
    } else if d == 2 {
        "2"@
    } else if d == 3 {
        "3"@
    } else if d == 4 {
        "4"@
    } else if d == 5 {
        "5"@
    } else if d == 6 {
        "6"@
    } else if d == 7 {
        "7"@
    } else if d == 8 {
        "8"@
    } else {
        "9"@
    }
}

/// The decimal numeral of `n`, without leading zeros.
pub open spec fn decimal(n: nat) -> Seq<char>
    decreases n,
{
    if n < 10 {
        digit(n)
    } else {
        decimal(n / 10) + digit(n % 10)
    }
}

/// The numeral of `n` in two digits, with a leading zero where `n` is under ten.
pub open spec fn two_digits(n: nat) -> Seq<char>
    recommends
        n < 100,
{
    digit(n / 10) + digit(n % 10)
}

/// An amount of cents as dollars and cents: a dollar sign, the dollars, a
/// point and the cents in two digits.
pub open spec fn dollars(cents: nat) -> Seq<char> {
    "$"@ + decimal(cents / 100) + "."@ + two_digits(cents % 100)
}

/// The numeral of the digit `d`.
pub fn digit_str(d: u32) -> (res: &'static str)
    requires
        d < 10,
    ensures
        res@ == digit(d as nat),
{
    if d == 0 {
        "0"
    } else if d == 1 {
        "1"
    } else if d == 2 {
        "2"
    } else if d == 3 {
        "3"
    } else if d == 4 {
        "4"
    } else if d == 5 {
        "5"
    } else if d == 6 {
        "6"
    } else if d == 7 {
        "7"
    } else if d == 8 {
        "8"
    } else {
        "9"
    }
}

/// The decimal numeral of `n`.
pub fn decimal_string(n: u32) -> (res: String)
    ensures
        res@ == decimal(n as nat),
    decreases n,
{
    if n < 10 {
        digit_str(n).to_owned()
    } else {
        let head = decimal_string(n / 10);
        head.concat(digit_str(n % 10))
    }
}

/// `text` followed by the decimal numeral of `n`.
pub fn with_decimal(text: String, n: u32) -> (res: String)
    ensures
        res@ == text@ + decimal(n as nat),
{
    let numeral = decimal_string(n);
    text.concat(numeral.as_str())
}

/// `text` followed by `cents` written as dollars and cents.
pub fn with_dollars(text: String, cents: u32) -> (res: String)
    ensures
        res@ == text@ + dollars(cents as nat),
{
    let whole = decimal_string(cents / 100);
    let rest: u32 = cents % 100;
    let out = text.concat("$").concat(whole.as_str()).concat(".").concat(
        digit_str(rest / 10),
    ).concat(digit_str(rest % 10));
    out
}

} // verus!
