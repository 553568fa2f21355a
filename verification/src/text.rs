//! Decimal rendering of whole numbers and the string helpers that the
//! display text is built from.

use vstd::prelude::*;
use vstd::string::*;

verus! {

/// The ASCII digit for `d` (taken modulo ten).
pub open spec fn digit_char(d: int) -> char {
    if d % 10 == 0 { '0' }
    else if d % 10 == 1 { '1' }
    else if d % 10 == 2 { '2' }
    else if d % 10 == 3 { '3' }
    else if d % 10 == 4 { '4' }
    else if d % 10 == 5 { '5' }
    else if d % 10 == 6 { '6' }
    else if d % 10 == 7 { '7' }
    else if d % 10 == 8 { '8' }
    else { '9' }
}

/// The digit for `d` is the ASCII character `'0' + d % 10`, and a number
/// under ten is written as that single digit.
pub proof fn law_digits(d: int)
    ensures
        digit_char(d) as int == '0' as int + d % 10,
        0 <= d < 10 ==> decimal(d) == seq![digit_char(d)],
        0 < d < 10 ==> decimal(-d) == seq!['-', digit_char(d)],
{
    if 0 < d < 10 {
        assert(seq!['-'] + seq![digit_char(d)] =~= seq!['-', digit_char(d)]);
    }
}

/// Decimal digits of a natural number, most significant first, no leading zeros.
pub open spec fn decimal_digits(n: nat) -> Seq<char>
    decreases n,
{
    if n < 10 {
        seq![digit_char(n as int)]
    } else {
        decimal_digits(n / 10) + seq![digit_char((n % 10) as int)]
    }
}

/// Decimal text of an integer, as Rust's `to_string` writes it: a leading `-`
/// for negative numbers, then the digits of its magnitude.
pub open spec fn decimal(n: int) -> Seq<char> {
    if n < 0 {
        seq!['-'] + decimal_digits((-n) as nat)
    } else {
        decimal_digits(n as nat)
    }
}

fn digit_str(d: u64) -> (s: &'static str)
    requires
        d < 10,
    ensures
        s@ == seq![digit_char(d as int)],
{
    proof {
        reveal_strlit("0");
        reveal_strlit("1");
        reveal_strlit("2");
        reveal_strlit("3");
        reveal_strlit("4");
        reveal_strlit("5");
        reveal_strlit("6");
        reveal_strlit("7");
        reveal_strlit("8");
        reveal_strlit("9");
    }
    if d == 0 { "0" }
    else if d == 1 { "1" }
    else if d == 2 { "2" }
    else if d == 3 { "3" }
    else if d == 4 { "4" }
    else if d == 5 { "5" }
    else if d == 6 { "6" }
    else if d == 7 { "7" }
    else if d == 8 { "8" }
    else { "9" }
}

/// Decimal text of an unsigned number.
pub fn nat_to_decimal(n: u64) -> (s: String)
    ensures
        s@ == decimal_digits(n as nat),
    decreases n,
{
    if n < 10 {
        String::from_str(digit_str(n))
    } else {
        let mut s = nat_to_decimal(n / 10);
        s.append(digit_str(n % 10));
        s
    }
}

/// Decimal text of a signed number, as `i64::to_string` writes it.
pub fn int_to_decimal(n: i64) -> (s: String)
    ensures
        s@ == decimal(n as int),
{
    if n < 0 {
        let magnitude: u64 = (0i128 - n as i128) as u64;
        let mut s = String::from_str("-");
        proof {
            reveal_strlit("-");
        }
        s.append(nat_to_decimal(magnitude).as_str());
        s
    } else {
        nat_to_decimal(n as u64)
    }
}

} // verus!
