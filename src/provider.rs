//! The size provider: annotations for every match of a text, in order.

use vstd::prelude::*;

use crate::normalize::{normalize, normalized};
use crate::segment::{ordered_matches, ordered_segments, InfoSegment, SizeMatch};

verus! {

/// The annotations of the matches that normalise, in the order of the matches.
pub open spec fn annotations_of(ms: Seq<SizeMatch>) -> Seq<InfoSegment>
    decreases ms.len(),
{
    if ms.len() == 0 {
        seq![]
    } else {
        let rest = annotations_of(ms.drop_last());
        match normalized(ms.last()) {
            Some(a) => rest.push(a),
            None => rest,
        }
    }
}

/// Annotates data-size expressions. It holds no state: every call depends
/// on its arguments alone.
#[derive(Clone, Copy, Debug)]
pub struct ByteProvider;

impl ByteProvider {
    /// The label under which this provider is registered and shown.
    pub fn name(&self) -> (r: &'static str)
        ensures
            r@ == seq!['B', 'y', 't', 'e', 's'],
    {
        proof {
            reveal_strlit("Bytes");
        }
        "Bytes"
    }

    /// The annotations of the matches found in a text, given in the order in
    /// which they occur; a match that does not normalise is skipped.
    pub fn parse_message(&self, matches: &Vec<SizeMatch>) -> (r: Vec<InfoSegment>)
        ensures
            r@ == annotations_of(matches@),
    {
        let mut out: Vec<InfoSegment> = Vec::new();
        let mut i: usize = 0;
        while i < matches.len()
            invariant
                i <= matches@.len(),
                out@ == annotations_of(matches@.subrange(0, i as int)),
            decreases matches@.len() - i,
        {
            let ghost before = matches@.subrange(0, i as int);
            assert(matches@.subrange(0, i + 1).drop_last() =~= before);
            assert(matches@.subrange(0, i + 1).last() == matches@[i as int]);
            match normalize(&matches[i]) {
                Some(a) => out.push(a),
                None => {},
            }
            i = i + 1;
        }
        assert(matches@.subrange(0, matches@.len() as int) =~= matches@);
        out
    }
}

} // verus!
