//! Numeric literals: thousands separators and unsigned decimal parsing.

use vstd::prelude::*;

verus! {

/// Whether `c` is an ASCII decimal digit.
pub open spec fn is_digit(c: char) -> bool {
    '0' <= c && c <= '9'
}

/// The digits of a literal, after an optional leading `+`.
pub open spec fn unsigned_digits(s: Seq<char>) -> Seq<char> {
    if s.len() > 0 && s[0] == '+' {
        s.drop_first()
    } else {
        s
    }
}

/// An optional `+` followed by one or more decimal digits.
pub open spec fn is_unsigned_literal(s: Seq<char>) -> bool {
    let d = unsigned_digits(s);
    &&& d.len() > 0
    &&& forall|i: int| 0 <= i < d.len() ==> is_digit(#[trigger] d[i])
}

/// The value of a sequence of decimal digits, most significant first.
pub open spec fn digits_value(d: Seq<char>) -> nat
    decreases d.len(),
{
    if d.len() == 0 {
        0
    } else {
        digits_value(d.drop_last()) * 10 + ((d.last() as u32 - '0' as u32) as nat)
    }
}

/// The value of a literal that holds as an unsigned 64-bit integer, if any.
pub open spec fn literal_value(s: Seq<char>) -> Option<u64> {
    if is_unsigned_literal(s) && digits_value(unsigned_digits(s)) <= u64::MAX {
        Some(digits_value(unsigned_digits(s)) as u64)
    } else {
        None
    }
}

/// The text with every `,` taken out.
pub open spec fn without_commas(s: Seq<char>) -> Seq<char> {
    s.filter(|c: char| c != ',')
}

#[verifier::external_type_specification]
#[verifier::external_body]
pub struct ExLexicalError(lexical::Error);

/// Relies on `lexical::parse::<u64, _>`: it accepts exactly an optional `+`
/// followed by one or more ASCII digits whose value fits in a `u64`, and
/// returns that value; on anything else (empty text, a `-`, another
/// character, overflow) it returns an error.
#[verifier::external_body]
fn lexical_parse_u64(s: &str) -> (r: Result<u64, lexical::Error>)
    ensures
        r is Ok <==> literal_value(s@) is Some,
        r is Ok ==> r->Ok_0 == literal_value(s@)->0,
{
    lexical::parse::<u64, _>(s)
}

/// Relies on `str::replace` with the pattern `','` and an empty replacement:
/// every comma is removed and the other characters keep their order.
#[verifier::external_body]
fn remove_commas(s: &str) -> (r: String)
    ensures
        r@ == without_commas(s@),
{
    s.replace(',', "")
}

/// Parses a numeric literal that may hold `,` as a thousands separator.
/// `None` when the text without its commas is not an unsigned decimal
/// literal, or its value does not fit in a `u64`.
pub fn parse_literal(s: &str) -> (r: Option<u64>)
    ensures
        r == literal_value(without_commas(s@)),
{
    let digits = remove_commas(s);
    match lexical_parse_u64(digits.as_str()) {
        Ok(v) => Some(v),
        Err(_) => None,
    }
}

} // verus!
