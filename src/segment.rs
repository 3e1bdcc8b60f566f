//! Matches handed in by the pattern matcher, and the annotations made of them.

use vstd::prelude::*;

verus! {

/// One occurrence of a size expression in a text, with its named parts.
/// `start` and `end` are offsets into the text, `end` exclusive.
#[derive(Debug)]
pub struct SizeMatch {
    pub start: usize,
    pub end: usize,
    /// The number, possibly with `,` as a thousands separator.
    pub numeric_literal: Option<String>,
    /// The magnitude prefix (`k`, `mega`, ...), if one was matched.
    pub prefix_token: Option<String>,
    /// Whether the marker that selects binary (powers of 1024) prefixes was matched.
    pub binary_indicator: bool,
    /// The unit (`bit`, `byte`, ...), compared without regard to case.
    pub unit_token: Option<String>,
}

/// What an annotation says of the text it covers.
#[derive(Clone, Copy, Debug, PartialEq, Eq, Structural)]
pub enum Tooltip {
    /// A size: the byte count, whether the text counted bits, and whether
    /// its prefix was read as decimal (SI) rather than binary.
    Bytes { bytes: u64, bits: bool, si: bool },
}

/// A recognised region `start..end` of a text and what it means.
#[derive(Clone, Copy, Debug, PartialEq, Eq, Structural)]
pub struct InfoSegment {
    pub start: usize,
    pub end: usize,
    pub info: Tooltip,
}

impl SizeMatch {
    /// The span lies within its own bounds.
    pub open spec fn well_formed(&self) -> bool {
        self.start <= self.end
    }
}

/// Each span is well formed and ends before the next one starts.
pub open spec fn ordered_matches(ms: Seq<SizeMatch>) -> bool {
    &&& forall|i: int| 0 <= i < ms.len() ==> (#[trigger] ms[i]).well_formed()
    &&& forall|i: int, j: int|
        0 <= i < j < ms.len() ==> #[trigger] ms[i].end <= #[trigger] ms[j].start
}

/// Each segment is well formed and ends before the next one starts.
pub open spec fn ordered_segments(s: Seq<InfoSegment>) -> bool {
    &&& forall|i: int| 0 <= i < s.len() ==> (#[trigger] s[i]).start <= s[i].end
    &&& forall|i: int, j: int|
        0 <= i < j < s.len() ==> #[trigger] s[i].end <= #[trigger] s[j].start
}

} // verus!
