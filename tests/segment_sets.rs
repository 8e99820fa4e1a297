use merge_policy_demo::merge_policy::{MergeWheneverPossiblePolicy, TargetDocsPerSegmentPolicy};
use merge_policy_demo::segment::{MergeCandidate, SegmentInfo};
use merge_policy_demo::segment_set::{SegmentSet, SegmentSetError};

fn set_of(docs: &[u32]) -> SegmentSet {
    let mut set = SegmentSet::new();
    for (i, d) in docs.iter().enumerate() {
        set.add_segment(SegmentInfo { id: 1 + i as u128, num_docs: *d }).unwrap();
    }
    set
}

fn total(set: &SegmentSet) -> u64 {
    set.snapshot().iter().map(|s| s.num_docs as u64).sum()
}

#[test]
fn commit_adds_a_segment() {
    let mut set = SegmentSet::new();
    assert!(set.snapshot().is_empty());
    set.add_segment(SegmentInfo { id: 5, num_docs: 3 }).unwrap();
    assert_eq!(set.snapshot(), &[SegmentInfo { id: 5, num_docs: 3 }]);
    assert_eq!(
        set.add_segment(SegmentInfo { id: 5, num_docs: 9 }),
        Err(SegmentSetError::DuplicateId)
    );
    assert_eq!(set.snapshot().len(), 1);
}

#[test]
fn merge_conserves_documents() {
    let mut set = set_of(&[10, 20, 30, 40]);
    let merged = set.apply_merge(&MergeCandidate(vec![3, 1]), 99).unwrap();
    assert_eq!(merged, SegmentInfo { id: 99, num_docs: 40 });
    assert_eq!(
        set.snapshot(),
        &[
            SegmentInfo { id: 2, num_docs: 20 },
            SegmentInfo { id: 4, num_docs: 40 },
            SegmentInfo { id: 99, num_docs: 40 },
        ]
    );
    assert_eq!(total(&set), 100);
}

#[test]
fn merge_errors_leave_set_unchanged() {
    let mut set = set_of(&[10, 20]);
    assert_eq!(
        set.apply_merge(&MergeCandidate(vec![1, 7]), 99),
        Err(SegmentSetError::UnknownSegment)
    );
    assert_eq!(
        set.apply_merge(&MergeCandidate(vec![1, 2]), 2),
        Err(SegmentSetError::DuplicateId)
    );
    let mut big = set_of(&[u32::MAX, 1]);
    assert_eq!(
        big.apply_merge(&MergeCandidate(vec![1, 2]), 9),
        Err(SegmentSetError::TooManyDocs)
    );
    assert_eq!(set.snapshot().len(), 2);
    assert_eq!(big.snapshot().len(), 2);
    assert_eq!(total(&set), 30);
}

#[test]
fn merge_up_to_the_largest_count() {
    let mut set = set_of(&[u32::MAX - 1, 1]);
    let merged = set.apply_merge(&MergeCandidate(vec![1, 2]), 9).unwrap();
    assert_eq!(merged.num_docs, u32::MAX);
}

#[test]
fn greedy_reaches_a_fixed_point() {
    let policy = MergeWheneverPossiblePolicy::new("b".to_string());
    let mut set = set_of(&[3, 4, 5, 6]);
    let plan = policy.compute_merge_candidates(set.snapshot());
    assert_eq!(plan.len(), 1);
    set.apply_merge(&plan[0], 50).unwrap();
    assert_eq!(set.snapshot(), &[SegmentInfo { id: 50, num_docs: 18 }]);
    assert!(policy.compute_merge_candidates(set.snapshot()).is_empty());
}

#[test]
fn target_candidates_stay_below_target_and_disjoint() {
    let policy = TargetDocsPerSegmentPolicy::new("d".to_string(), 100);
    let mut set = set_of(&[30, 90, 40, 29, 5]);
    let plan = policy.compute_merge_candidates(set.snapshot());
    assert_eq!(plan.len(), 1);
    assert_eq!(plan[0].0, vec![1, 3, 4]);
    let merged = set.apply_merge(&plan[0], 77).unwrap();
    assert_eq!(merged.num_docs, 99);
    assert!(merged.num_docs < 100);
    let left: Vec<u128> = set.snapshot().iter().map(|s| s.id).collect();
    assert_eq!(left, vec![2, 5, 77]);
    assert_eq!(total(&set), 194);
}
