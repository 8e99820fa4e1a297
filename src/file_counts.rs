use vstd::prelude::*;

use crate::text::{ends_with, has_suffix};

verus! {

/// The kinds of segment component files that a run reports, by file-name suffix.
#[derive(Clone, Copy, Debug, PartialEq, Eq, Structural)]
pub enum SegmentComponent {
    Fast,
    FieldNorm,
    Idx,
    Pos,
    Store,
    Term,
}

/// The component a file belongs to: the first of the suffixes `fast`, `fieldnorm`,
/// `idx`, `pos`, `store`, `term` that ends its name; none for any other file.
pub open spec fn component_of(name: Seq<char>) -> Option<SegmentComponent> {
    if ends_with(name, seq!['f', 'a', 's', 't']) {
        Some(SegmentComponent::Fast)
    } else if ends_with(name, seq!['f', 'i', 'e', 'l', 'd', 'n', 'o', 'r', 'm']) {
        Some(SegmentComponent::FieldNorm)
    } else if ends_with(name, seq!['i', 'd', 'x']) {
        Some(SegmentComponent::Idx)
    } else if ends_with(name, seq!['p', 'o', 's']) {
        Some(SegmentComponent::Pos)
    } else if ends_with(name, seq!['s', 't', 'o', 'r', 'e']) {
        Some(SegmentComponent::Store)
    } else if ends_with(name, seq!['t', 'e', 'r', 'm']) {
        Some(SegmentComponent::Term)
    } else {
        None
    }
}

/// How many of the file names belong to the component.
pub open spec fn count_component(names: Seq<String>, c: SegmentComponent) -> nat
    decreases names.len(),
{
    if names.len() == 0 {
        0
    } else {
        count_component(names.drop_last(), c) + if component_of(names.last()@) == Some(c) {
            1nat
        } else {
            0nat
        }
    }
}

/// Tells which component a segment file belongs to, from its name.
pub fn classify_file_name(name: &str) -> (r: Option<SegmentComponent>)
    ensures
        r == component_of(name@),
{
    proof {
        reveal_strlit("fast");
        reveal_strlit("fieldnorm");
        reveal_strlit("idx");
        reveal_strlit("pos");
        reveal_strlit("store");
        reveal_strlit("term");
        assert("fast"@ =~= seq!['f', 'a', 's', 't']);
        assert("fieldnorm"@ =~= seq!['f', 'i', 'e', 'l', 'd', 'n', 'o', 'r', 'm']);
        assert("idx"@ =~= seq!['i', 'd', 'x']);
        assert("pos"@ =~= seq!['p', 'o', 's']);
        assert("store"@ =~= seq!['s', 't', 'o', 'r', 'e']);
        assert("term"@ =~= seq!['t', 'e', 'r', 'm']);
    }
    if has_suffix(name, "fast") {
        Some(SegmentComponent::Fast)
    } else if has_suffix(name, "fieldnorm") {
        Some(SegmentComponent::FieldNorm)
    } else if has_suffix(name, "idx") {
        Some(SegmentComponent::Idx)
    } else if has_suffix(name, "pos") {
        Some(SegmentComponent::Pos)
    } else if has_suffix(name, "store") {
        Some(SegmentComponent::Store)
    } else if has_suffix(name, "term") {
        Some(SegmentComponent::Term)
    } else {
        None
    }
}

/// The number of files of each component in an index directory.
#[derive(Clone, Copy, Debug, PartialEq, Eq, Structural)]
pub struct SegmentFileCounts {
    pub fast: u32,
    pub fieldnorm: u32,
    pub idx: u32,
    pub pos: u32,
    pub store: u32,
    pub term: u32,
}

impl SegmentFileCounts {
    /// How many files of the component were counted.
    pub open spec fn get(self, c: SegmentComponent) -> u32 {
        match c {
            SegmentComponent::Fast => self.fast,
            SegmentComponent::FieldNorm => self.fieldnorm,
            SegmentComponent::Idx => self.idx,
            SegmentComponent::Pos => self.pos,
            SegmentComponent::Store => self.store,
            SegmentComponent::Term => self.term,
        }
    }
}

/// Tallies the files of an index directory by component; names that belong to
/// no component are ignored.
pub fn count_segment_files(names: &Vec<String>) -> (r: SegmentFileCounts)
    requires
        names@.len() <= u32::MAX,
    ensures
        forall|c: SegmentComponent| #[trigger] r.get(c) == count_component(names@, c),
{
    let mut counts = SegmentFileCounts { fast: 0, fieldnorm: 0, idx: 0, pos: 0, store: 0, term: 0 };
    let mut i: usize = 0;
    while i < names.len()
        invariant
            i <= names@.len(),
            names@.len() <= u32::MAX,
            forall|c: SegmentComponent|
                #[trigger] counts.get(c) == count_component(names@.take(i as int), c),
            forall|c: SegmentComponent| #[trigger] count_component(names@.take(i as int), c) <= i,
        decreases names@.len() - i,
    {
        let ghost before = counts;
        let comp = classify_file_name(names[i].as_str());
        assert(names@.take(i + 1).drop_last() =~= names@.take(i as int));
        assert(names@.take(i + 1).last() == names@[i as int]);
        assert(counts.get(SegmentComponent::Fast) <= i);
        assert(counts.get(SegmentComponent::FieldNorm) <= i);
        assert(counts.get(SegmentComponent::Idx) <= i);
        assert(counts.get(SegmentComponent::Pos) <= i);
        assert(counts.get(SegmentComponent::Store) <= i);
        assert(counts.get(SegmentComponent::Term) <= i);
        match comp {
            Some(SegmentComponent::Fast) => counts.fast = counts.fast + 1,
            Some(SegmentComponent::FieldNorm) => counts.fieldnorm = counts.fieldnorm + 1,
            Some(SegmentComponent::Idx) => counts.idx = counts.idx + 1,
            Some(SegmentComponent::Pos) => counts.pos = counts.pos + 1,
            Some(SegmentComponent::Store) => counts.store = counts.store + 1,
            Some(SegmentComponent::Term) => counts.term = counts.term + 1,
            None => {},
        }
        i = i + 1;
        assert forall|c: SegmentComponent|
            #[trigger] counts.get(c) == count_component(names@.take(i as int), c)
                && count_component(names@.take(i as int), c) <= i by {
            assert(before.get(c) == count_component(names@.take(i - 1), c));
        }
    }
    assert(names@.take(i as int) =~= names@);
    counts
}

} // verus!
