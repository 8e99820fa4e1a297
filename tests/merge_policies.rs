use merge_policy_demo::merge_policy::{
    MergeWheneverPossiblePolicy, SelectedPolicy, TargetDocsPerSegmentPolicy,
};
use merge_policy_demo::scenario::{CommitCadence, PolicyKind, RunConfig, TARGET_DOCS_PER_SEGMENT};
use merge_policy_demo::segment::{segment_ids, MergeCandidate, SegmentInfo};

fn segments(docs: &[u32]) -> Vec<SegmentInfo> {
    docs.iter()
        .enumerate()
        .map(|(i, d)| SegmentInfo { id: 100 + i as u128, num_docs: *d })
        .collect()
}

fn ids(cs: &[MergeCandidate]) -> Vec<Vec<u128>> {
    cs.iter().map(|c| c.0.clone()).collect()
}

#[test]
fn greedy_merges_all_segments_in_order() {
    let policy = MergeWheneverPossiblePolicy::new("a".to_string());
    let snapshot = vec![
        SegmentInfo { id: 7, num_docs: 1 },
        SegmentInfo { id: 3, num_docs: 50 },
        SegmentInfo { id: 9, num_docs: 20000 },
    ];
    assert_eq!(ids(&policy.compute_merge_candidates(&snapshot)), vec![vec![7, 3, 9]]);
}

#[test]
fn greedy_two_segments_one_candidate() {
    let policy = MergeWheneverPossiblePolicy::new("b".to_string());
    let snapshot = segments(&[4, 5]);
    assert_eq!(ids(&policy.compute_merge_candidates(&snapshot)), vec![vec![100, 101]]);
}

#[test]
fn greedy_empty_and_single_give_nothing() {
    let policy = MergeWheneverPossiblePolicy::new("a".to_string());
    assert!(policy.compute_merge_candidates(&[]).is_empty());
    assert!(policy.compute_merge_candidates(&segments(&[12])).is_empty());
}

#[test]
fn target_three_segments_fit_cumulatively() {
    let policy = TargetDocsPerSegmentPolicy::new("c".to_string(), 10000);
    let snapshot = segments(&[1000, 2000, 3000]);
    assert_eq!(ids(&policy.compute_merge_candidates(&snapshot)), vec![vec![100, 101, 102]]);
}

#[test]
fn target_second_bin_is_never_opened() {
    let policy = TargetDocsPerSegmentPolicy::new("d".to_string(), 10000);
    let snapshot = segments(&[5000, 6000]);
    assert!(policy.compute_merge_candidates(&snapshot).is_empty());
}

#[test]
fn target_skips_segments_that_do_not_fit() {
    let policy = TargetDocsPerSegmentPolicy::new("g".to_string(), 10000);
    let snapshot = segments(&[4000, 7000, 3000, 2999, 1]);
    // 4000 opens the bin; 7000 is skipped; 3000 brings it to 7000; 2999 to 9999; 1 would reach 10000.
    let plan = ids(&policy.compute_merge_candidates(&snapshot));
    assert_eq!(plan, vec![vec![100, 102, 103]]);
    let total: u32 = [4000u32, 3000, 2999].iter().sum();
    assert!(total < 10000);
}

#[test]
fn target_sum_equal_to_target_does_not_fit() {
    let policy = TargetDocsPerSegmentPolicy::new("h".to_string(), 10000);
    assert!(policy.compute_merge_candidates(&segments(&[5000, 5000])).is_empty());
    assert_eq!(
        ids(&policy.compute_merge_candidates(&segments(&[5000, 4999]))),
        vec![vec![100, 101]]
    );
}

#[test]
fn target_lone_large_segment_gives_nothing() {
    let policy = TargetDocsPerSegmentPolicy::new("c".to_string(), 10);
    assert!(policy.compute_merge_candidates(&segments(&[50, 1, 1])).is_empty());
    assert!(policy.compute_merge_candidates(&[]).is_empty());
}

#[test]
fn target_largest_counts_do_not_overflow() {
    let policy = TargetDocsPerSegmentPolicy::new("c".to_string(), u32::MAX);
    let snapshot = segments(&[u32::MAX - 1, u32::MAX, 1]);
    assert!(policy.compute_merge_candidates(&snapshot).is_empty());
    let snapshot = segments(&[u32::MAX - 2, 1]);
    assert_eq!(ids(&policy.compute_merge_candidates(&snapshot)), vec![vec![100, 101]]);
}

#[test]
fn segment_ids_keep_order() {
    assert_eq!(segment_ids(&segments(&[1, 2, 3])), vec![100, 101, 102]);
}

#[test]
fn selected_policy_dispatches() {
    let snapshot = segments(&[5000, 6000]);
    let greedy = SelectedPolicy::MergeWheneverPossible(MergeWheneverPossiblePolicy::new("e".to_string()));
    assert_eq!(ids(&greedy.compute_merge_candidates(&snapshot)), vec![vec![100, 101]]);
    let target = SelectedPolicy::TargetDocsPerSegment(TargetDocsPerSegmentPolicy::new("g".to_string(), 10000));
    assert!(target.compute_merge_candidates(&snapshot).is_empty());
    assert_eq!(greedy.run_id(), "e");
    assert_eq!(target.run_id(), "g");
}

#[test]
fn as_box_keeps_the_policy() {
    let p = TargetDocsPerSegmentPolicy::new("x".to_string(), 42).as_box();
    assert_eq!(p.run_id, "x");
    assert_eq!(p.target_docs_per_segment, 42);
    let q = MergeWheneverPossiblePolicy::new("y".to_string()).as_box();
    assert_eq!(q.run_id, "y");
}

#[test]
fn scenarios_cover_a_to_h() {
    let a = RunConfig::scenario('a').unwrap();
    assert_eq!(a.cadence, CommitCadence::SingleFinalCommit);
    assert_eq!(a.policy, PolicyKind::MergeWheneverPossible);
    assert!(!a.wait_for_merges);
    assert!(a.commit_after_all_documents());
    assert!(!a.commit_after_each_document());
    let d = RunConfig::scenario('d').unwrap();
    assert_eq!(d.policy, PolicyKind::TargetDocsPerSegment);
    assert!(d.wait_for_merges);
    let h = RunConfig::scenario('h').unwrap();
    assert_eq!(h.cadence, CommitCadence::CommitEachDocument);
    assert!(h.commit_after_each_document());
    assert!(RunConfig::scenario('i').is_none());
    assert!(RunConfig::scenario('A').is_none());
}

#[test]
fn scenario_builds_its_policy() {
    match RunConfig::scenario('g').unwrap().merge_policy() {
        SelectedPolicy::TargetDocsPerSegment(p) => {
            assert_eq!(p.run_id, "g");
            assert_eq!(p.target_docs_per_segment, TARGET_DOCS_PER_SEGMENT);
            assert_eq!(TARGET_DOCS_PER_SEGMENT, 10000);
        }
        other => panic!("unexpected policy {:?}", other),
    }
    match RunConfig::scenario('b').unwrap().merge_policy() {
        SelectedPolicy::MergeWheneverPossible(p) => assert_eq!(p.run_id, "b"),
        other => panic!("unexpected policy {:?}", other),
    }
}
