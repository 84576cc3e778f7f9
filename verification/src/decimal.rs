//! Decimal text of integers: how the standard library writes and reads them.
//!
//! Channel and message identifiers are stored as decimal text and read back
//! as integers, and the retention period arrives as text from the environment.

use vstd::prelude::*;

verus! {

/// The ASCII digit for `d` (meant for `d < 10`).
pub open spec fn digit_char(d: nat) -> char {
    (d + 48) as char
}

pub open spec fn is_digit(c: char) -> bool {
    '0' <= c && c <= '9'
}

/// The value of an ASCII digit.
pub open spec fn digit_value(c: char) -> int {
    c as int - 48
}

pub open spec fn all_digits(s: Seq<char>) -> bool {
    forall|i: int| 0 <= i < s.len() ==> is_digit(#[trigger] s[i])
}

/// The number that a string of digits denotes, most significant digit first.
pub open spec fn digits_value(s: Seq<char>) -> int
    decreases s.len(),
{
    if s.len() == 0 {
        0
    } else {
        digits_value(s.drop_last()) * 10 + digit_value(s.last())
    }
}

/// The decimal text of a natural number, without leading zeros.
pub open spec fn nat_decimal(n: nat) -> Seq<char>
    decreases n,
{
    if n < 10 {
        seq![digit_char(n)]
    } else {
        nat_decimal(n / 10).push(digit_char(n % 10))
    }
}

/// The decimal text of an integer: a minus sign before the digits of a negative one.
pub open spec fn int_decimal(n: int) -> Seq<char> {
    if n < 0 {
        seq!['-'] + nat_decimal((-n) as nat)
    } else {
        nat_decimal(n as nat)
    }
}

/// What `u64::from_str` accepts: an optional `+` followed by one or more
/// ASCII digits whose value fits in a `u64`.
pub open spec fn spec_parse_u64(s: Seq<char>) -> Option<u64> {
    let body = if s.len() > 0 && s[0] == '+' { s.drop_first() } else { s };
    if body.len() > 0 && all_digits(body) && digits_value(body) <= u64::MAX {
        Some(digits_value(body) as u64)
    } else {
        None
    }
}

/// What `i64::from_str` accepts: an optional `+` or `-` followed by one or
/// more ASCII digits whose signed value fits in an `i64`.
pub open spec fn spec_parse_i64(s: Seq<char>) -> Option<i64> {
    let negative = s.len() > 0 && s[0] == '-';
    let body = if s.len() > 0 && (s[0] == '+' || s[0] == '-') { s.drop_first() } else { s };
    let value: int = if negative { -digits_value(body) } else { digits_value(body) };
    if body.len() > 0 && all_digits(body) && i64::MIN <= value <= i64::MAX {
        Some(value as i64)
    } else {
        None
    }
}

/// `u64::to_string`: the standard library writes an unsigned integer in
/// decimal, without sign and without leading zeros.
#[verifier::external_body]
pub(crate) fn u64_text(n: u64) -> (s: String)
    ensures
        s@ == nat_decimal(n as nat),
{
    n.to_string()
}

/// `u128::to_string`, as `u64_text` for 128-bit integers.
#[verifier::external_body]
pub(crate) fn u128_text(n: u128) -> (s: String)
    ensures
        s@ == nat_decimal(n as nat),
{
    n.to_string()
}

/// `i64::to_string`: decimal digits without leading zeros, after a `-` for a
/// negative number.
#[verifier::external_body]
pub(crate) fn i64_text(n: i64) -> (s: String)
    ensures
        s@ == int_decimal(n as int),
{
    n.to_string()
}

/// `str::parse::<u64>` (that is, `u64::from_str`), with its error dropped:
/// the result is what `spec_parse_u64` describes, after the documentation of
/// `u64::from_str_radix` with radix 10.
#[verifier::external_body]
pub(crate) fn parse_u64(s: &str) -> (r: Option<u64>)
    ensures
        r == spec_parse_u64(s@),
{
    s.parse::<u64>().ok()
}

/// `str::parse::<i64>` (that is, `i64::from_str`), with its error dropped:
/// the result is what `spec_parse_i64` describes, after the documentation of
/// `i64::from_str_radix` with radix 10.
#[verifier::external_body]
pub(crate) fn parse_i64(s: &str) -> (r: Option<i64>)
    ensures
        r == spec_parse_i64(s@),
{
    s.parse::<i64>().ok()
}

/// The decimal text of a number is a non-empty string of digits that denotes it.
pub proof fn lemma_nat_decimal_denotes(n: nat)
    ensures
        nat_decimal(n).len() >= 1,
        all_digits(nat_decimal(n)),
        digits_value(nat_decimal(n)) == n,
    decreases n,
{
    let d = nat_decimal(n);
    if n < 10 {
        assert(d.drop_last() =~= Seq::<char>::empty());
        assert(digit_value(digit_char(n)) == n);
        assert(digits_value(d.drop_last()) == 0);
        assert(d.last() == digit_char(n));
    } else {
        lemma_nat_decimal_denotes(n / 10);
        assert(d.drop_last() =~= nat_decimal(n / 10));
        assert(digit_value(digit_char(n % 10)) == n % 10);
        assert(d.last() == digit_char(n % 10));
        assert(digits_value(d) == digits_value(nat_decimal(n / 10)) * 10 + n % 10);
        assert((n / 10) * 10 + n % 10 == n) by (nonlinear_arith);
        assert forall|i: int| 0 <= i < d.len() implies is_digit(#[trigger] d[i]) by {
            if i < d.len() - 1 {
                assert(d[i] == nat_decimal(n / 10)[i]);
            }
        }
    }
}

/// Reading back what was written: the decimal text of a `u64` parses to the
/// same `u64`.
pub proof fn lemma_u64_text_parses_back(n: u64)
    ensures
        spec_parse_u64(nat_decimal(n as nat)) == Some(n),
{
    lemma_nat_decimal_denotes(n as nat);
    let s = nat_decimal(n as nat);
    assert(is_digit(s[0]));
}

} // verus!
