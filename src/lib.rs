//! Recognises data-size quantities in matched text and normalises each one
//! to a byte count, with the metadata needed to display it again.

mod laws;
mod literal;
mod magnitude;
mod normalize;
mod provider;
mod segment;

pub use laws::{
    lemma_incomplete_match_skipped, lemma_no_matches_no_annotations,
    lemma_normalize_deterministic, lemma_order_kept, lemma_span_kept,
};
pub use literal::{
    digits_value, is_digit, is_unsigned_literal, literal_value, parse_literal, unsigned_digits,
    without_commas,
};
pub use magnitude::{
    exponent, lemma_multiplier_is_power, magnitude, magnitude_of, multiplier, same_text, scale,
    scaled, Magnitude,
};
pub use normalize::{
    annotate, annotation_for, is_bit_unit, lower_of, lowered_prefix, normalize, normalized,
};
pub use provider::{annotations_of, ByteProvider};
pub use segment::{ordered_matches, ordered_segments, InfoSegment, SizeMatch, Tooltip};
