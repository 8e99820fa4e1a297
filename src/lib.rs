//! Segment merge scheduling for an embedded document index: the merge
//! policies, the live segment set they act on, and the helpers that turn
//! people records into index fields and tally segment files.

pub mod segment;
pub mod merge_policy;
pub mod segment_set;
pub mod text;
pub mod file_counts;
pub mod models;
pub mod document;
pub mod scenario;
pub mod index_doc;
