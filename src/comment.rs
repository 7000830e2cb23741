//! Comment threads on dataset items.
use crate::classes::BoundingBox;
use vstd::prelude::*;

verus! {

#[derive(Debug, Default, Clone, PartialEq, Eq)]
pub struct CommentBody {
    pub body: String,
}

#[derive(Debug, Default, Clone, PartialEq, Eq)]
pub struct CommentThread {
    pub bounding_box: BoundingBox,
    pub comments: Vec<CommentBody>,
    pub slot_name: String,
}

#[derive(Debug, Default, Clone, PartialEq, Eq)]
pub struct CommentLine {
    pub author_id: Option<u32>,
    pub body: Option<String>,
    pub comment_thread_id: Option<String>,
    pub created_by_system: Option<bool>,
    pub id: Option<String>,
    pub inserted_at: Option<String>,
    pub updated_at: Option<String>,
}

#[derive(Debug, Default, Clone, PartialEq, Eq)]
pub struct CommentThreadResponse {
    pub author_id: Option<u32>,
    pub bounding_box: Option<BoundingBox>,
    pub comment_count: Option<u32>,
    pub dataset_item_id: Option<String>,
    pub first_comment: Option<CommentLine>,
    pub id: Option<String>,
    pub inserted_at: Option<String>,
    pub issue_data: Option<String>,
    pub issue_types: Option<String>,
    pub last_comment_at: Option<String>,
    pub resolved: Option<bool>,
    pub section_index: Option<String>,
    pub slot_name: Option<String>,
    pub updated_at: Option<String>,
}

} // verus!
