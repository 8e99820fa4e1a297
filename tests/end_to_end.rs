use merge_policy_demo::document::PersonField;
use merge_policy_demo::merge_policy::{MergeWheneverPossiblePolicy, SelectedPolicy};
use merge_policy_demo::models::Person;
use merge_policy_demo::segment::SegmentInfo;
use tantivy::index::{SegmentId, SegmentMeta};
use tantivy::merge_policy::{MergeCandidate, MergePolicy};
use tantivy::schema::{FacetOptions, Schema, STORED, STRING, TEXT};
use tantivy::{Index, IndexWriter};

#[derive(Debug)]
struct Installed(SelectedPolicy);

impl MergePolicy for Installed {
    fn compute_merge_candidates(&self, metas: &[SegmentMeta]) -> Vec<MergeCandidate> {
        let snapshot: Vec<SegmentInfo> = metas
            .iter()
            .map(|m| SegmentInfo {
                id: u128::from_str_radix(&m.id().uuid_string(), 16).unwrap(),
                num_docs: m.num_docs(),
            })
            .collect();
        self.0
            .compute_merge_candidates(&snapshot)
            .into_iter()
            .map(|c| {
                MergeCandidate(
                    c.0.iter()
                        .map(|id| SegmentId::from_uuid_string(&format!("{:032x}", id)).unwrap())
                        .collect(),
                )
            })
            .collect()
    }
}

fn schema() -> Schema {
    let mut builder = Schema::builder();
    for f in PersonField::all() {
        if f.is_facet() {
            builder.add_facet_field(f.name(), FacetOptions::default());
        } else if f == PersonField::Id {
            builder.add_text_field(f.name(), STRING | STORED);
        } else {
            builder.add_text_field(f.name(), TEXT);
        }
    }
    builder.build()
}

fn records() -> Vec<Person> {
    (0..5)
        .map(|i| Person {
            id: format!("id-{}", i),
            first_name: format!("first{}", i),
            last_name: format!("last{}", i),
            sex: "male".to_string(),
            email: format!("p{}@example.org", i),
            address: None,
            settings: None,
        })
        .collect()
}

fn index_once(wait: bool) -> usize {
    let schema = schema();
    let index = Index::create_in_ram(schema.clone());
    let mut writer: IndexWriter = index.writer_with_num_threads(1, 15_000_000).unwrap();
    writer.set_merge_policy(Box::new(Installed(SelectedPolicy::MergeWheneverPossible(
        MergeWheneverPossiblePolicy::new("a".to_string()),
    ))));
    for p in records() {
        writer.add_document(p.to_doc(schema.clone()).unwrap()).unwrap();
    }
    writer.commit().unwrap();
    if wait {
        writer.wait_merging_threads().unwrap();
    }
    index.searchable_segment_metas().unwrap().len()
}

#[test]
fn single_commit_without_wait_leaves_a_live_segment() {
    assert!(index_once(false) >= 1);
}

#[test]
fn single_commit_with_wait_leaves_one_segment() {
    assert_eq!(index_once(true), 1);
}
