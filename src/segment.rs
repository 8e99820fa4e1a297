use vstd::prelude::*;

verus! {

/// An immutable, already flushed unit of indexed data: its identifier (the
/// 128-bit value of the index engine's segment UUID) and how many documents it holds.
#[derive(Clone, Copy, Debug, PartialEq, Eq, Structural)]
pub struct SegmentInfo {
    pub id: u128,
    pub num_docs: u32,
}

/// A proposed group of segment identifiers to be merged into one new segment.
#[derive(Clone, Debug)]
pub struct MergeCandidate(pub Vec<u128>);

impl View for MergeCandidate {
    type V = Seq<u128>;

    open spec fn view(&self) -> Seq<u128> {
        self.0@
    }
}

/// The identifiers of a snapshot, in snapshot order.
pub open spec fn ids_of(s: Seq<SegmentInfo>) -> Seq<u128> {
    s.map_values(|x: SegmentInfo| x.id)
}

/// No identifier is listed twice in the snapshot.
pub open spec fn ids_unique(s: Seq<SegmentInfo>) -> bool {
    forall|i: int, j: int| 0 <= i < s.len() && 0 <= j < s.len() && i != j ==> s[i].id != s[j].id
}

/// The identifiers of a list of candidates, as mathematical sequences.
pub open spec fn candidate_ids(cs: Seq<MergeCandidate>) -> Seq<Seq<u128>> {
    cs.map_values(|c: MergeCandidate| c@)
}

/// The total number of documents held by a snapshot.
pub open spec fn total_docs(s: Seq<SegmentInfo>) -> int
    decreases s.len(),
{
    if s.len() == 0 {
        0
    } else {
        total_docs(s.drop_last()) + s.last().num_docs
    }
}

/// Gathers the identifiers of a snapshot into one vector, in order.
pub fn segment_ids(segments: &[SegmentInfo]) -> (r: Vec<u128>)
    ensures
        r@ == ids_of(segments@),
{
    let mut ids: Vec<u128> = Vec::new();
    let mut i: usize = 0;
    while i < segments.len()
        invariant
            i <= segments@.len(),
            ids@ == ids_of(segments@.take(i as int)),
        decreases segments@.len() - i,
    {
        ids.push(segments[i].id);
        i = i + 1;
        assert(ids_of(segments@.take(i as int)) =~= ids_of(segments@.take((i - 1) as int)).push(
            segments@[i - 1].id,
        ));
    }
    assert(segments@.take(i as int) =~= segments@);
    ids
}

} // verus!
