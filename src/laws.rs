//! Laws that relate the normaliser and the provider.

use vstd::prelude::*;

use crate::normalize::normalized;
use crate::provider::annotations_of;
use crate::segment::{ordered_matches, ordered_segments, SizeMatch, Tooltip};

verus! {

/// An annotation covers exactly the span of the match it was made from, so
/// for a well-formed match its start is at most its end; its byte count is
/// never negative.
pub proof fn lemma_span_kept(m: SizeMatch)
    requires
        m.well_formed(),
    ensures
        normalized(m) matches Some(a) ==> {
            &&& a.start == m.start
            &&& a.end == m.end
            &&& a.start <= a.end
            &&& a.info->bytes >= 0
        },
{
}

/// A match without its numeric literal, or without its unit, gives no
/// annotation.
pub proof fn lemma_incomplete_match_skipped(m: SizeMatch)
    requires
        m.numeric_literal is None || m.unit_token is None,
    ensures
        normalized(m) is None,
{
}

/// A text without matches gives no annotations.
pub proof fn lemma_no_matches_no_annotations()
    ensures
        annotations_of(Seq::<SizeMatch>::empty()) == Seq::<crate::segment::InfoSegment>::empty(),
{
}

/// Normalising the same match twice gives the same result: the result is a
/// function of the match alone.
pub proof fn lemma_normalize_deterministic(a: SizeMatch, b: SizeMatch)
    requires
        a == b,
    ensures
        normalized(a) == normalized(b),
{
}

/// If every match ends by `hi`, so does every annotation made of them.
proof fn lemma_annotations_end_by(ms: Seq<SizeMatch>, hi: int)
    requires
        forall|k: int| 0 <= k < ms.len() ==> #[trigger] ms[k].end <= hi,
    ensures
        forall|i: int|
            0 <= i < annotations_of(ms).len() ==> #[trigger] annotations_of(ms)[i].end <= hi,
    decreases ms.len(),
{
    if ms.len() > 0 {
        let p = ms.drop_last();
        assert forall|k: int| 0 <= k < p.len() implies #[trigger] p[k].end <= hi by {
            assert(p[k] == ms[k]);
        }
        lemma_annotations_end_by(p, hi);
        let rest = annotations_of(p);
        assert(ms.last() == ms[ms.len() - 1]);
        if let Some(a) = normalized(ms.last()) {
            assert(a.end == ms.last().end);
            let all = rest.push(a);
            assert forall|i: int| 0 <= i < all.len() implies #[trigger] all[i].end <= hi by {
                if i < rest.len() {
                    assert(all[i] == rest[i]);
                }
            }
        }
    }
}

/// Annotations come out in the order of their matches: for ordered,
/// non-overlapping matches each annotation ends before the next one starts.
pub proof fn lemma_order_kept(ms: Seq<SizeMatch>)
    requires
        ordered_matches(ms),
    ensures
        ordered_segments(annotations_of(ms)),
    decreases ms.len(),
{
    if ms.len() > 0 {
        let n = ms.len() - 1;
        let p = ms.drop_last();
        assert forall|i: int, j: int| 0 <= i < j < p.len() implies #[trigger] p[i].end
            <= #[trigger] p[j].start by {
            assert(p[i] == ms[i] && p[j] == ms[j]);
        }
        assert forall|i: int| 0 <= i < p.len() implies (#[trigger] p[i]).well_formed() by {
            assert(p[i] == ms[i]);
        }
        lemma_order_kept(p);
        let rest = annotations_of(p);
        assert(ms.last() == ms[n]);
        assert(ms[n].well_formed());
        lemma_span_kept(ms[n]);
        if let Some(a) = normalized(ms[n]) {
            assert forall|k: int| 0 <= k < p.len() implies #[trigger] p[k].end <= ms[n].start by {
                assert(p[k] == ms[k]);
            }
            lemma_annotations_end_by(p, ms[n].start as int);
            let all = rest.push(a);
            assert(annotations_of(ms) == all);
            assert forall|i: int, j: int| 0 <= i < j < all.len() implies #[trigger] all[i].end
                <= #[trigger] all[j].start by {
                if j == all.len() - 1 {
                    assert(all[i] == rest[i]);
                } else {
                    assert(all[i] == rest[i] && all[j] == rest[j]);
                }
            }
            assert forall|i: int| 0 <= i < all.len() implies (#[trigger] all[i]).start
                <= all[i].end by {
                if i < rest.len() {
                    assert(all[i] == rest[i]);
                }
            }
        }
    }
}

} // verus!
