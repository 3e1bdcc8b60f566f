//! Turning one match into at most one size annotation.

use vstd::prelude::*;

use crate::literal::{literal_value, parse_literal, without_commas};
use crate::magnitude::{magnitude, magnitude_of, same_text, scale, scaled};
use crate::segment::{InfoSegment, SizeMatch, Tooltip};

verus! {

/// What `str::to_lowercase` makes of a text.
pub uninterp spec fn lower_of(s: Seq<char>) -> Seq<char>;

/// Relies on `str::to_lowercase`: the result depends on the characters alone.
#[verifier::external_body]
fn lowercase(s: &str) -> (r: String)
    ensures
        r@ == lower_of(s@),
{
    s.to_lowercase()
}

/// Whether a lower-cased unit counts bits; every other unit counts bytes.
pub open spec fn is_bit_unit(unit: Seq<char>) -> bool {
    unit == seq!['b', 'i', 't']
}

/// The annotation of `start..end` for `value` with a lower-cased prefix and
/// unit: the value scaled by the prefix, then divided by eight (rounding
/// down) if the unit is bits. `None` when the scaled value exceeds `u64`.
pub open spec fn annotation_for(
    start: usize,
    end: usize,
    value: u64,
    prefix: Seq<char>,
    si: bool,
    unit: Seq<char>,
) -> Option<InfoSegment> {
    match scaled(value, magnitude_of(prefix), si) {
        Some(total) => Some(
            InfoSegment {
                start,
                end,
                info: Tooltip::Bytes {
                    bytes: if is_bit_unit(unit) {
                        total / 8
                    } else {
                        total
                    },
                    bits: is_bit_unit(unit),
                    si,
                },
            },
        ),
        None => None,
    }
}

/// The lower-cased prefix token; an absent one is empty.
pub open spec fn lowered_prefix(p: Option<String>) -> Seq<char> {
    match p {
        Some(t) => lower_of(t@),
        None => seq![],
    }
}

/// The annotation of a match: `None` when its numeric literal or unit is
/// missing, when the literal is not a number, or when the size exceeds
/// `u64`. The prefix is read as decimal unless the binary marker was matched.
pub open spec fn normalized(m: SizeMatch) -> Option<InfoSegment> {
    match m.numeric_literal {
        Some(lit) => match m.unit_token {
            Some(unit) => match literal_value(without_commas(lit@)) {
                Some(v) => annotation_for(
                    m.start,
                    m.end,
                    v,
                    lowered_prefix(m.prefix_token),
                    !m.binary_indicator,
                    lower_of(unit@),
                ),
                None => None,
            },
            None => None,
        },
        None => None,
    }
}

/// The annotation of `start..end` for a parsed `value`, with `prefix` and
/// `unit` already lower-cased.
pub fn annotate(start: usize, end: usize, value: u64, prefix: &str, si: bool, unit: &str) -> (r:
    Option<InfoSegment>)
    ensures
        r == annotation_for(start, end, value, prefix@, si, unit@),
{
    let total = match scale(value, magnitude(prefix), si) {
        Some(t) => t,
        None => return None,
    };
    proof {
        reveal_strlit("bit");
        assert("bit"@ =~= seq!['b', 'i', 't']);
    }
    let bits = same_text(unit, "bit");
    let bytes = if bits {
        total / 8
    } else {
        total
    };
    Some(InfoSegment { start, end, info: Tooltip::Bytes { bytes, bits, si } })
}

/// Normalises one match into its annotation, or `None` for a match that
/// cannot be read as a size.
pub fn normalize(m: &SizeMatch) -> (r: Option<InfoSegment>)
    ensures
        r == normalized(*m),
{
    let lit = match &m.numeric_literal {
        Some(l) => l,
        None => return None,
    };
    let unit_token = match &m.unit_token {
        Some(u) => u,
        None => return None,
    };
    let value = match parse_literal(lit.as_str()) {
        Some(v) => v,
        None => return None,
    };
    let prefix = match &m.prefix_token {
        Some(p) => lowercase(p.as_str()),
        None => String::new(),
    };
    let unit = lowercase(unit_token.as_str());
    annotate(m.start, m.end, value, prefix.as_str(), !m.binary_indicator, unit.as_str())
}

} // verus!
