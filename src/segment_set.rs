use vstd::prelude::*;

use crate::merge_policy::{
    greedy_plan, increasing_positions, lemma_target_candidates_below_target, packed_positions,
    SelectedPolicy,
};
use crate::segment::{ids_of, ids_unique, total_docs, MergeCandidate, SegmentInfo};

verus! {

/// Why the live segment set refused a change.
#[derive(Clone, Copy, Debug, PartialEq, Eq, Structural)]
pub enum SegmentSetError {
    /// The new segment's identifier is already live.
    DuplicateId,
    /// The candidate names a segment that is not live.
    UnknownSegment,
    /// The merged segment would hold more documents than a segment can count.
    TooManyDocs,
}

/// The segments of `s` that a merge of the candidate `c` leaves in place, in order.
pub open spec fn kept(s: Seq<SegmentInfo>, c: Seq<u128>) -> Seq<SegmentInfo>
    decreases s.len(),
{
    if s.len() == 0 {
        seq![]
    } else if c.contains(s.last().id) {
        kept(s.drop_last(), c)
    } else {
        kept(s.drop_last(), c).push(s.last())
    }
}

/// The documents of the segments of `s` that the candidate `c` names.
pub open spec fn merged_docs(s: Seq<SegmentInfo>, c: Seq<u128>) -> int
    decreases s.len(),
{
    if s.len() == 0 {
        0
    } else if c.contains(s.last().id) {
        merged_docs(s.drop_last(), c) + s.last().num_docs
    } else {
        merged_docs(s.drop_last(), c)
    }
}

/// The segment that a merge of `c` produces under the identifier `new_id`.
pub open spec fn merged_segment(s: Seq<SegmentInfo>, c: Seq<u128>, new_id: u128) -> SegmentInfo {
    SegmentInfo { id: new_id, num_docs: merged_docs(s, c) as u32 }
}

/// The live set after a merge of `c`: the sources leave, the merged segment joins last.
pub open spec fn after_merge(s: Seq<SegmentInfo>, c: Seq<u128>, new_id: u128) -> Seq<SegmentInfo> {
    kept(s, c).push(merged_segment(s, c, new_id))
}

/// Every identifier of the candidate names a live segment.
pub open spec fn all_live(s: Seq<SegmentInfo>, c: Seq<u128>) -> bool {
    forall|k: int| 0 <= k < c.len() ==> ids_of(s).contains(#[trigger] c[k])
}

proof fn lemma_merged_docs_prefix(s: Seq<SegmentInfo>, c: Seq<u128>, i: int, j: int)
    requires
        0 <= i <= j <= s.len(),
    ensures
        merged_docs(s.take(i), c) <= merged_docs(s.take(j), c),
    decreases j - i,
{
    if i < j {
        lemma_merged_docs_prefix(s, c, i, j - 1);
        assert(s.take(j).drop_last() =~= s.take(j - 1));
    }
}

proof fn lemma_merged_docs_nonneg(s: Seq<SegmentInfo>, c: Seq<u128>)
    ensures
        merged_docs(s, c) >= 0,
    decreases s.len(),
{
    if s.len() > 0 {
        lemma_merged_docs_nonneg(s.drop_last(), c);
    }
}

proof fn lemma_kept_ids(s: Seq<SegmentInfo>, c: Seq<u128>)
    requires
        ids_unique(s),
    ensures
        ids_unique(kept(s, c)),
        forall|k: int|
            0 <= k < kept(s, c).len() ==> ids_of(s).contains(#[trigger] kept(s, c)[k].id) && !c.contains(
                kept(s, c)[k].id,
            ),
    decreases s.len(),
{
    if s.len() > 0 {
        let p = s.drop_last();
        lemma_kept_ids(p, c);
        let kp = kept(p, c);
        assert forall|k: int| 0 <= k < kp.len() implies ids_of(s).contains(#[trigger] kp[k].id) by {
            let j = choose|j: int| 0 <= j < p.len() && ids_of(p)[j] == kp[k].id;
            assert(ids_of(s)[j] == kp[k].id);
        }
        if !c.contains(s.last().id) {
            let l = s.len() - 1;
            assert(ids_of(s)[l] == s.last().id);
            assert forall|k: int| 0 <= k < kp.len() implies kp[k].id != s.last().id by {
                let j = choose|j: int| 0 <= j < p.len() && ids_of(p)[j] == kp[k].id;
                assert(s[j].id != s[l].id);
            }
        }
    }
}

proof fn lemma_total_split(s: Seq<SegmentInfo>, c: Seq<u128>)
    ensures
        total_docs(kept(s, c)) + merged_docs(s, c) == total_docs(s),
    decreases s.len(),
{
    if s.len() > 0 {
        lemma_total_split(s.drop_last(), c);
        if !c.contains(s.last().id) {
            assert(kept(s, c).drop_last() =~= kept(s.drop_last(), c));
        }
    }
}

proof fn lemma_kept_none(s: Seq<SegmentInfo>, c: Seq<u128>)
    requires
        forall|j: int| 0 <= j < s.len() ==> c.contains(#[trigger] s[j].id),
    ensures
        kept(s, c).len() == 0,
    decreases s.len(),
{
    if s.len() > 0 {
        assert(c.contains(s[s.len() - 1].id));
        lemma_kept_none(s.drop_last(), c);
    }
}

/// Conservation of documents: a merge that fits in a segment leaves the number of
/// documents of the live set unchanged, and the merged segment holds exactly the
/// sum of its sources' documents.
pub proof fn lemma_merge_conserves_docs(s: Seq<SegmentInfo>, c: Seq<u128>, new_id: u128)
    requires
        merged_docs(s, c) <= u32::MAX,
    ensures
        merged_segment(s, c, new_id).num_docs == merged_docs(s, c),
        total_docs(after_merge(s, c, new_id)) == total_docs(s),
{
    lemma_merged_docs_nonneg(s, c);
    lemma_total_split(s, c);
    assert(after_merge(s, c, new_id).drop_last() =~= kept(s, c));
}

/// Merging everything is a fixed point: once its one candidate has been merged,
/// a single segment is live and the policy proposes nothing more.
pub proof fn lemma_greedy_fixed_point(s: Seq<SegmentInfo>, new_id: u128)
    requires
        s.len() >= 2,
        merged_docs(s, ids_of(s)) <= u32::MAX,
    ensures
        greedy_plan(s).len() == 1,
        after_merge(s, greedy_plan(s)[0], new_id).len() == 1,
        greedy_plan(after_merge(s, greedy_plan(s)[0], new_id)).len() == 0,
{
    let c = greedy_plan(s)[0];
    assert(c == ids_of(s));
    assert forall|j: int| 0 <= j < s.len() implies c.contains(#[trigger] s[j].id) by {
        assert(c[j] == s[j].id);
    }
    lemma_kept_none(s, c);
}

/// Whatever strategy is chosen, each candidate it proposes names two or more
/// segments of the snapshot it was given, so executing it finds every source live.
pub proof fn lemma_plan_names_live_segments(policy: SelectedPolicy, s: Seq<SegmentInfo>)
    requires
        ids_unique(s),
    ensures
        forall|k: int|
            0 <= k < policy.plan(s).len() ==> (#[trigger] policy.plan(s)[k]).len() >= 2 && all_live(
                s,
                policy.plan(s)[k],
            ),
{
    match policy {
        SelectedPolicy::MergeWheneverPossible(_) => {
            if s.len() > 1 {
                let c = ids_of(s);
                assert forall|m: int| 0 <= m < c.len() implies ids_of(s).contains(#[trigger] c[m]) by {
                    assert(ids_of(s)[m] == c[m]);
                }
            }
        },
        SelectedPolicy::TargetDocsPerSegment(p) => {
            let t = p.target_docs_per_segment as int;
            lemma_target_candidates_below_target(s, t);
            if policy.plan(s).len() == 1 {
                let c = policy.plan(s)[0];
                let pos = packed_positions(s, t);
                assert(increasing_positions(pos, s.len() as int));
                assert forall|m: int| 0 <= m < c.len() implies ids_of(s).contains(#[trigger] c[m]) by {
                    assert(0 <= pos[m] < s.len());
                    assert(ids_of(s)[pos[m]] == c[m]);
                }
            }
        },
    }
}

/// The live segments of an index, in the order the index lists them.
pub struct SegmentSet {
    segments: Vec<SegmentInfo>,
}

impl View for SegmentSet {
    type V = Seq<SegmentInfo>;

    closed spec fn view(&self) -> Seq<SegmentInfo> {
        self.segments@
    }
}

/// Whether some live segment of the list carries the identifier.
fn has_segment(segments: &Vec<SegmentInfo>, id: u128) -> (r: bool)
    ensures
        r == ids_of(segments@).contains(id),
{
    let mut i: usize = 0;
    while i < segments.len()
        invariant
            i <= segments@.len(),
            forall|k: int| 0 <= k < i ==> segments@[k].id != id,
        decreases segments@.len() - i,
    {
        if segments[i].id == id {
            assert(ids_of(segments@)[i as int] == id);
            return true;
        }
        i = i + 1;
    }
    assert forall|k: int| 0 <= k < ids_of(segments@).len() implies ids_of(segments@)[k] != id by {
        assert(ids_of(segments@)[k] == segments@[k].id);
    }
    false
}

/// Whether the candidate names the identifier.
fn names(candidate: &Vec<u128>, id: u128) -> (r: bool)
    ensures
        r == candidate@.contains(id),
{
    let mut i: usize = 0;
    while i < candidate.len()
        invariant
            i <= candidate@.len(),
            forall|k: int| 0 <= k < i ==> candidate@[k] != id,
        decreases candidate@.len() - i,
    {
        if candidate[i] == id {
            return true;
        }
        i = i + 1;
    }
    false
}

impl SegmentSet {
    /// No live identifier is listed twice.
    pub closed spec fn wf(&self) -> bool {
        ids_unique(self@)
    }

    pub fn new() -> (r: Self)
        ensures
            r.wf(),
            r@ == Seq::<SegmentInfo>::empty(),
    {
        SegmentSet { segments: Vec::new() }
    }

    /// The live segments, as handed to a merge policy.
    pub fn snapshot(&self) -> (r: &[SegmentInfo])
        ensures
            r@ == self@,
    {
        self.segments.as_slice()
    }

    /// Makes a freshly flushed segment live (what a commit does), unless its
    /// identifier already is.
    pub fn add_segment(&mut self, segment: SegmentInfo) -> (r: Result<(), SegmentSetError>)
        requires
            old(self).wf(),
        ensures
            final(self).wf(),
            ids_of(old(self)@).contains(segment.id) ==> r == Err::<(), SegmentSetError>(
                SegmentSetError::DuplicateId,
            ) && final(self)@ == old(self)@,
            !ids_of(old(self)@).contains(segment.id) ==> r is Ok && final(self)@ == old(self)@.push(
                segment,
            ),
    {
        if has_segment(&self.segments, segment.id) {
            return Err(SegmentSetError::DuplicateId);
        }
        let ghost s = self.segments@;
        self.segments.push(segment);
        proof {
            assert forall|i: int, j: int|
                0 <= i < self@.len() && 0 <= j < self@.len() && i != j implies self@[i].id
                != self@[j].id by {
                let l = s.len() as int;
                if i == l {
                    assert(ids_of(s)[j] == s[j].id);
                } else if j == l {
                    assert(ids_of(s)[i] == s[i].id);
                }
            }
        }
        Ok(())
    }

    /// Executes a merge: the candidate's segments leave the live set and one new
    /// segment, holding the sum of their documents, joins it under `new_id`.
    /// Nothing changes when the candidate names a segment that is not live, when
    /// `new_id` is already live, or when the sum does not fit in a segment.
    pub fn apply_merge(&mut self, candidate: &MergeCandidate, new_id: u128) -> (r: Result<
        SegmentInfo,
        SegmentSetError,
    >)
        requires
            old(self).wf(),
        ensures
            final(self).wf(),
            !all_live(old(self)@, candidate@) ==> r == Err::<SegmentInfo, SegmentSetError>(
                SegmentSetError::UnknownSegment,
            ),
            all_live(old(self)@, candidate@) && ids_of(old(self)@).contains(new_id) ==> r == Err::<
                SegmentInfo,
                SegmentSetError,
            >(SegmentSetError::DuplicateId),
            all_live(old(self)@, candidate@) && !ids_of(old(self)@).contains(new_id) && merged_docs(
                old(self)@,
                candidate@,
            ) > u32::MAX ==> r == Err::<SegmentInfo, SegmentSetError>(SegmentSetError::TooManyDocs),
            r is Err ==> final(self)@ == old(self)@,
            all_live(old(self)@, candidate@) && !ids_of(old(self)@).contains(new_id) && merged_docs(
                old(self)@,
                candidate@,
            ) <= u32::MAX ==> {
                &&& r == Ok::<SegmentInfo, SegmentSetError>(
                    merged_segment(old(self)@, candidate@, new_id),
                )
                &&& final(self)@ == after_merge(old(self)@, candidate@, new_id)
            },
    {
        let ids = &candidate.0;
        let mut k: usize = 0;
        while k < ids.len()
            invariant
                k <= ids@.len(),
                ids@ == candidate@,
                self.segments@ == old(self).segments@,
                self.wf(),
                forall|m: int| 0 <= m < k ==> ids_of(self.segments@).contains(#[trigger] ids@[m]),
            decreases ids@.len() - k,
        {
            if !has_segment(&self.segments, ids[k]) {
                return Err(SegmentSetError::UnknownSegment);
            }
            k = k + 1;
        }
        if has_segment(&self.segments, new_id) {
            return Err(SegmentSetError::DuplicateId);
        }
        let ghost s = self.segments@;
        let mut docs: u64 = 0;
        let mut rest: Vec<SegmentInfo> = Vec::new();
        let mut i: usize = 0;
        while i < self.segments.len()
            invariant
                s == self.segments@,
                s == old(self)@,
                ids@ == candidate@,
                ids_unique(s),
                all_live(s, candidate@),
                !ids_of(s).contains(new_id),
                i <= s.len(),
                docs == merged_docs(s.take(i as int), candidate@),
                docs <= u32::MAX,
                rest@ == kept(s.take(i as int), candidate@),
            decreases s.len() - i,
        {
            let seg = self.segments[i];
            assert(s.take(i + 1).drop_last() =~= s.take(i as int));
            if names(ids, seg.id) {
                if docs + seg.num_docs as u64 > 0xFFFF_FFFF {
                    proof {
                        lemma_merged_docs_prefix(s, candidate@, i + 1, s.len() as int);
                        assert(s.take(s.len() as int) =~= s);
                    }
                    return Err(SegmentSetError::TooManyDocs);
                }
                docs = docs + seg.num_docs as u64;
            } else {
                rest.push(seg);
            }
            i = i + 1;
        }
        assert(s.take(s.len() as int) =~= s);
        let merged = SegmentInfo { id: new_id, num_docs: docs as u32 };
        rest.push(merged);
        self.segments = rest;
        proof {
            lemma_kept_ids(s, candidate@);
            let kp = kept(s, candidate@);
            assert forall|a: int, b: int|
                0 <= a < self@.len() && 0 <= b < self@.len() && a != b implies self@[a].id
                != self@[b].id by {
                let l = kp.len() as int;
                if a == l {
                    assert(ids_of(s).contains(kp[b].id));
                } else if b == l {
                    assert(ids_of(s).contains(kp[a].id));
                }
            }
        }
        Ok(merged)
    }
}

} // verus!
