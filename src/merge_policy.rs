use vstd::prelude::*;

use crate::segment::{candidate_ids, ids_of, ids_unique, segment_ids, MergeCandidate, SegmentInfo};

verus! {

/// The identifiers of the snapshot segments at the given positions.
pub open spec fn ids_at(s: Seq<SegmentInfo>, p: Seq<int>) -> Seq<u128> {
    p.map_values(|k: int| s[k].id)
}

/// The number of documents held by the snapshot segments at the given positions.
pub open spec fn docs_at(s: Seq<SegmentInfo>, p: Seq<int>) -> int
    decreases p.len(),
{
    if p.len() == 0 {
        0
    } else {
        docs_at(s, p.drop_last()) + s[p.last()].num_docs
    }
}

/// Positions that are in range and strictly increasing, so each names a distinct segment.
pub open spec fn increasing_positions(p: Seq<int>, n: int) -> bool {
    &&& forall|k: int| 0 <= k < p.len() ==> 0 <= #[trigger] p[k] < n
    &&& forall|a: int, b: int| 0 <= a < b < p.len() ==> p[a] < p[b]
}

/// What the merge-everything policy proposes: one candidate with every segment,
/// in snapshot order, as soon as two or more segments coexist.
pub open spec fn greedy_plan(s: Seq<SegmentInfo>) -> Seq<Seq<u128>> {
    if s.len() > 1 {
        seq![ids_of(s)]
    } else {
        seq![]
    }
}

/// The open bin of target-size packing after the segments of `s` were taken in
/// order: its document count and the positions of its members. A segment joins
/// the bin when the count stays strictly below `t`; a bin is opened only while
/// none exists, so packing never holds more than one bin.
pub open spec fn pack(s: Seq<SegmentInfo>, t: int) -> Option<(int, Seq<int>)>
    decreases s.len(),
{
    if s.len() == 0 {
        None
    } else {
        let i = s.len() - 1;
        let d = s[i].num_docs as int;
        match pack(s.drop_last(), t) {
            None => Some((d, seq![i])),
            Some(bin) => if bin.0 + d < t {
                Some((bin.0 + d, bin.1.push(i)))
            } else {
                Some(bin)
            },
        }
    }
}

/// The positions that target-size packing groups together (empty without a bin).
pub open spec fn packed_positions(s: Seq<SegmentInfo>, t: int) -> Seq<int> {
    match pack(s, t) {
        Some(bin) => bin.1,
        None => seq![],
    }
}

/// What the target-size policy proposes: the bin, when it holds two or more segments.
pub open spec fn target_plan(s: Seq<SegmentInfo>, t: int) -> Seq<Seq<u128>> {
    if packed_positions(s, t).len() >= 2 {
        seq![ids_at(s, packed_positions(s, t))]
    } else {
        seq![]
    }
}

proof fn lemma_docs_at_prefix(s: Seq<SegmentInfo>, n: int, p: Seq<int>)
    requires
        0 <= n <= s.len(),
        forall|k: int| 0 <= k < p.len() ==> 0 <= #[trigger] p[k] < n,
    ensures
        docs_at(s.take(n), p) == docs_at(s, p),
    decreases p.len(),
{
    if p.len() > 0 {
        lemma_docs_at_prefix(s, n, p.drop_last());
    }
}

proof fn lemma_pack(s: Seq<SegmentInfo>, t: int)
    ensures
        pack(s, t) matches Some(bin) ==> {
            &&& bin.1.len() >= 1
            &&& increasing_positions(bin.1, s.len() as int)
            &&& bin.0 == docs_at(s, bin.1)
            &&& bin.1.len() >= 2 ==> bin.0 < t
        },
    decreases s.len(),
{
    if s.len() > 0 {
        let i = s.len() - 1;
        lemma_pack(s.drop_last(), t);
        assert(s.drop_last() =~= s.take(i));
        if let Some(bin) = pack(s.drop_last(), t) {
            lemma_docs_at_prefix(s, i, bin.1);
            if bin.0 + s[i].num_docs < t {
                let m = bin.1.push(i);
                assert(m.drop_last() =~= bin.1);
                assert(docs_at(s, m) == docs_at(s, bin.1) + s[i].num_docs);
                assert forall|a: int, b: int| 0 <= a < b < m.len() implies m[a] < m[b] by {
                    if b < m.len() - 1 {
                        assert(bin.1[a] < bin.1[b]);
                    } else {
                        assert(0 <= bin.1[a] < i);
                    }
                }
                assert(increasing_positions(m, s.len() as int));
            }
        } else {
            let m = seq![i];
            assert(m.drop_last() =~= Seq::<int>::empty());
            assert(docs_at(s, Seq::<int>::empty()) == 0);
            assert(m.last() == i);
            assert(docs_at(s, m) == s[i].num_docs);
        }
    }
}

/// Merging everything: with two or more segments there is exactly one candidate,
/// and it lists every segment identifier exactly once; with at most one segment
/// there is none.
pub proof fn lemma_greedy_merges_all(s: Seq<SegmentInfo>)
    requires
        ids_unique(s),
    ensures
        s.len() >= 2 ==> {
            &&& greedy_plan(s).len() == 1
            &&& greedy_plan(s)[0].len() == s.len()
            &&& greedy_plan(s)[0].no_duplicates()
            &&& forall|j: int| 0 <= j < s.len() ==> greedy_plan(s)[0].contains(#[trigger] s[j].id)
        },
        s.len() <= 1 ==> greedy_plan(s).len() == 0,
{
    if s.len() >= 2 {
        let c = greedy_plan(s)[0];
        assert(c == ids_of(s));
        assert forall|j: int| 0 <= j < s.len() implies c.contains(#[trigger] s[j].id) by {
            assert(c[j] == s[j].id);
        }
    }
}

/// Target-size packing: at most one candidate comes out, so no identifier is in two;
/// it gathers distinct segments, each named once, whose document counts add up to
/// strictly less than the target; every segment outside it is left out of all candidates.
pub proof fn lemma_target_candidates_below_target(s: Seq<SegmentInfo>, t: int)
    requires
        ids_unique(s),
    ensures
        target_plan(s, t).len() <= 1,
        target_plan(s, t).len() == 1 ==> {
            let p = packed_positions(s, t);
            &&& p.len() >= 2
            &&& increasing_positions(p, s.len() as int)
            &&& target_plan(s, t)[0] == ids_at(s, p)
            &&& target_plan(s, t)[0].no_duplicates()
            &&& docs_at(s, p) < t
            &&& forall|j: int|
                0 <= j < s.len() && !p.contains(j) ==> !target_plan(s, t)[0].contains(
                    #[trigger] s[j].id,
                )
        },
{
    lemma_pack(s, t);
    if target_plan(s, t).len() == 1 {
        let p = packed_positions(s, t);
        let c = ids_at(s, p);
        assert forall|a: int, b: int| 0 <= a < c.len() && 0 <= b < c.len() && a != b implies c[a]
            != c[b] by {
            if a < b {
                assert(p[a] < p[b]);
            } else {
                assert(p[b] < p[a]);
            }
        }
        assert forall|j: int| 0 <= j < s.len() && !p.contains(j) implies !c.contains(
            #[trigger] s[j].id,
        ) by {
            if c.contains(s[j].id) {
                let k = choose|k: int| 0 <= k < c.len() && c[k] == s[j].id;
                assert(p[k] != j);
            }
        }
    }
}

/// Groups segments toward a ceiling on documents per merged segment.
#[derive(Clone, Debug)]
pub struct TargetDocsPerSegmentPolicy {
    pub run_id: String,
    pub target_docs_per_segment: u32,
}

impl TargetDocsPerSegmentPolicy {
    pub fn new(run_id: String, target_docs_per_segment: u32) -> (r: Self)
        ensures
            r.run_id@ == run_id@,
            r.target_docs_per_segment == target_docs_per_segment,
    {
        TargetDocsPerSegmentPolicy { run_id, target_docs_per_segment }
    }

    pub fn as_box(self) -> (r: Box<Self>)
        ensures
            *r == self,
    {
        Box::new(self)
    }

    /// Packs the segments, in the order given, into the one bin that may be
    /// open, and proposes that bin when it holds two or more segments.
    pub fn compute_merge_candidates(&self, segments: &[SegmentInfo]) -> (r: Vec<MergeCandidate>)
        ensures
            candidate_ids(r@) == target_plan(segments@, self.target_docs_per_segment as int),
    {
        let t = self.target_docs_per_segment as u64;
        let ghost tt = self.target_docs_per_segment as int;
        let mut open: bool = false;
        let mut bin_docs: u64 = 0;
        let mut members: Vec<u128> = Vec::new();
        let ghost mut positions: Seq<int> = seq![];
        let mut i: usize = 0;
        while i < segments.len()
            invariant
                i <= segments@.len(),
                t == tt,
                t <= u32::MAX,
                bin_docs <= u32::MAX,
                pack(segments@.take(i as int), tt) == (if open {
                    Some((bin_docs as int, positions))
                } else {
                    None::<(int, Seq<int>)>
                }),
                !open ==> positions.len() == 0,
                members@ == ids_at(segments@, positions),
            decreases segments@.len() - i,
        {
            let seg = segments[i];
            let d = seg.num_docs as u64;
            assert(segments@.take(i + 1).drop_last() =~= segments@.take(i as int));
            if !open {
                open = true;
                bin_docs = d;
                members.push(seg.id);
                proof {
                    positions = seq![i as int];
                }
            } else if bin_docs + d < t {
                bin_docs = bin_docs + d;
                members.push(seg.id);
                proof {
                    positions = positions.push(i as int);
                }
            }
            assert(members@ =~= ids_at(segments@, positions));
            i = i + 1;
        }
        assert(segments@.take(i as int) =~= segments@);
        if open && members.len() >= 2 {
            let r = vec![MergeCandidate(members)];
            assert(candidate_ids(r@) =~= target_plan(segments@, tt));
            r
        } else {
            let r: Vec<MergeCandidate> = Vec::new();
            assert(candidate_ids(r@) =~= target_plan(segments@, tt));
            r
        }
    }
}

/// Merges every live segment into one as soon as two or more coexist.
#[derive(Clone, Debug)]
pub struct MergeWheneverPossiblePolicy {
    pub run_id: String,
}

impl MergeWheneverPossiblePolicy {
    pub fn new(run_id: String) -> (r: Self)
        ensures
            r.run_id@ == run_id@,
    {
        MergeWheneverPossiblePolicy { run_id }
    }

    pub fn as_box(self) -> (r: Box<Self>)
        ensures
            *r == self,
    {
        Box::new(self)
    }

    /// One candidate with every segment, in the order given, when there are two
    /// or more; none otherwise.
    pub fn compute_merge_candidates(&self, segments: &[SegmentInfo]) -> (r: Vec<MergeCandidate>)
        ensures
            candidate_ids(r@) == greedy_plan(segments@),
    {
        let ids = segment_ids(segments);
        if ids.len() > 1 {
            let r = vec![MergeCandidate(ids)];
            assert(candidate_ids(r@) =~= greedy_plan(segments@));
            r
        } else {
            let r: Vec<MergeCandidate> = Vec::new();
            assert(candidate_ids(r@) =~= greedy_plan(segments@));
            r
        }
    }
}

/// A merge policy chosen at run time; the index writer holds it without knowing
/// which strategy it is.
#[derive(Clone, Debug)]
pub enum SelectedPolicy {
    MergeWheneverPossible(MergeWheneverPossiblePolicy),
    TargetDocsPerSegment(TargetDocsPerSegmentPolicy),
}

impl SelectedPolicy {
    /// What the chosen strategy proposes for a snapshot.
    pub open spec fn plan(&self, s: Seq<SegmentInfo>) -> Seq<Seq<u128>> {
        match self {
            SelectedPolicy::MergeWheneverPossible(_) => greedy_plan(s),
            SelectedPolicy::TargetDocsPerSegment(p) => target_plan(
                s,
                p.target_docs_per_segment as int,
            ),
        }
    }

    /// The label of the run that uses the policy.
    pub open spec fn run_label(&self) -> Seq<char> {
        match self {
            SelectedPolicy::MergeWheneverPossible(p) => p.run_id@,
            SelectedPolicy::TargetDocsPerSegment(p) => p.run_id@,
        }
    }

    pub fn run_id(&self) -> (r: &String)
        ensures
            r@ == self.run_label(),
    {
        match self {
            SelectedPolicy::MergeWheneverPossible(p) => &p.run_id,
            SelectedPolicy::TargetDocsPerSegment(p) => &p.run_id,
        }
    }

    pub fn compute_merge_candidates(&self, segments: &[SegmentInfo]) -> (r: Vec<MergeCandidate>)
        ensures
            candidate_ids(r@) == self.plan(segments@),
    {
        match self {
            SelectedPolicy::MergeWheneverPossible(p) => p.compute_merge_candidates(segments),
            SelectedPolicy::TargetDocsPerSegment(p) => p.compute_merge_candidates(segments),
        }
    }
}

} // verus!
