use vstd::prelude::*;

use crate::text::push_char;
use crate::merge_policy::{MergeWheneverPossiblePolicy, SelectedPolicy, TargetDocsPerSegmentPolicy};

verus! {

/// The document ceiling that target-size runs pack toward.
pub const TARGET_DOCS_PER_SEGMENT: u32 = 10000;

/// When buffered documents are committed.
#[derive(Clone, Copy, Debug, PartialEq, Eq, Structural)]
pub enum CommitCadence {
    /// Every document is buffered, then one commit flushes them all.
    SingleFinalCommit,
    /// A commit follows each document.
    CommitEachDocument,
}

/// Which merge strategy a run installs.
#[derive(Clone, Copy, Debug, PartialEq, Eq, Structural)]
pub enum PolicyKind {
    MergeWheneverPossible,
    TargetDocsPerSegment,
}

/// One benchmark scenario: its label, commit cadence, merge policy, and whether
/// it blocks until merging settles before measuring.
#[derive(Clone, Copy, Debug, PartialEq, Eq, Structural)]
pub struct RunConfig {
    pub label: char,
    pub cadence: CommitCadence,
    pub policy: PolicyKind,
    pub wait_for_merges: bool,
}

/// The scenarios `a` to `h`: the first four commit once, the last four after each
/// document; within each four, two merge whenever possible and two pack toward the
/// target; of each two, the second waits for merges.
pub open spec fn scenario_of(label: char) -> Option<RunConfig> {
    let index: int = label as int - 'a' as int;
    if 0 <= index < 8 {
        Some(
            RunConfig {
                label,
                cadence: if index < 4 {
                    CommitCadence::SingleFinalCommit
                } else {
                    CommitCadence::CommitEachDocument
                },
                policy: if index % 4 < 2 {
                    PolicyKind::MergeWheneverPossible
                } else {
                    PolicyKind::TargetDocsPerSegment
                },
                wait_for_merges: index % 2 == 1,
            },
        )
    } else {
        None
    }
}

/// The label of a scenario as a one-letter run identifier.
pub open spec fn label_text(label: char) -> Seq<char> {
    seq![label]
}

impl RunConfig {
    /// The scenario with the given label, if there is one.
    pub fn scenario(label: char) -> (r: Option<RunConfig>)
        ensures
            r == scenario_of(label),
    {
        let (cadence, policy, wait_for_merges) = match label {
            'a' => (CommitCadence::SingleFinalCommit, PolicyKind::MergeWheneverPossible, false),
            'b' => (CommitCadence::SingleFinalCommit, PolicyKind::MergeWheneverPossible, true),
            'c' => (CommitCadence::SingleFinalCommit, PolicyKind::TargetDocsPerSegment, false),
            'd' => (CommitCadence::SingleFinalCommit, PolicyKind::TargetDocsPerSegment, true),
            'e' => (CommitCadence::CommitEachDocument, PolicyKind::MergeWheneverPossible, false),
            'f' => (CommitCadence::CommitEachDocument, PolicyKind::MergeWheneverPossible, true),
            'g' => (CommitCadence::CommitEachDocument, PolicyKind::TargetDocsPerSegment, false),
            'h' => (CommitCadence::CommitEachDocument, PolicyKind::TargetDocsPerSegment, true),
            _ => {
                return None;
            },
        };
        Some(RunConfig { label, cadence, policy, wait_for_merges })
    }

    /// Whether a commit follows each added document.
    pub fn commit_after_each_document(&self) -> (r: bool)
        ensures
            r == (self.cadence == CommitCadence::CommitEachDocument),
    {
        match self.cadence {
            CommitCadence::CommitEachDocument => true,
            CommitCadence::SingleFinalCommit => false,
        }
    }

    /// Whether one commit follows the last added document.
    pub fn commit_after_all_documents(&self) -> (r: bool)
        ensures
            r == (self.cadence == CommitCadence::SingleFinalCommit),
    {
        !self.commit_after_each_document()
    }

    /// The merge policy the run installs, labelled with the run.
    pub fn merge_policy(&self) -> (r: SelectedPolicy)
        ensures
            r.run_label() == label_text(self.label),
            self.policy == PolicyKind::MergeWheneverPossible ==> r is MergeWheneverPossible,
            self.policy == PolicyKind::TargetDocsPerSegment ==> (r matches SelectedPolicy::TargetDocsPerSegment(
                p,
            ) && p.target_docs_per_segment == TARGET_DOCS_PER_SEGMENT),
    {
        let mut run_id = String::new();
        push_char(&mut run_id, self.label);
        assert(run_id@ =~= label_text(self.label));
        match self.policy {
            PolicyKind::MergeWheneverPossible => SelectedPolicy::MergeWheneverPossible(
                MergeWheneverPossiblePolicy::new(run_id),
            ),
            PolicyKind::TargetDocsPerSegment => SelectedPolicy::TargetDocsPerSegment(
                TargetDocsPerSegmentPolicy::new(run_id, TARGET_DOCS_PER_SEGMENT),
            ),
        }
    }
}

} // verus!
