//! Filters that select the items of a dataset.
use vstd::prelude::*;

verus! {

#[derive(Debug, Default, Clone, PartialEq, Eq)]
pub struct Filter {
    pub statuses: Option<Vec<String>>,
    pub accuracy_from: Option<u32>,
    pub not_statuses: Option<Vec<String>>,
    pub not_workflow_stage_ids: Option<Vec<u32>>,
    pub not_item_name_contains: Option<String>,
    pub iou_threshold: Option<String>,
    pub annotation_class_ids: Option<Vec<u32>>,
    pub not_current_assignees: Option<Vec<u32>>,
    pub types: Option<Vec<String>>,
    pub not_assignees: Option<Vec<u32>>,
    pub item_paths: Option<Vec<String>>,
    pub item_names: Option<Vec<String>>,
    pub not_item_names: Option<Vec<String>>,
    pub current_assignees: Option<Vec<u32>>,
    pub has_comments: Option<bool>,
    pub assignees: Option<Vec<u32>>,
    pub item_path_prefix: Option<String>,
    pub item_name_prefix: Option<String>,
    pub not_item_paths: Option<Vec<String>>,
    pub item_name_contains: Option<String>,
    pub not_annotation_class_ids: Option<Vec<u32>>,
    pub map_from: Option<u32>,
    pub evaluation_metrics_run_id: Option<String>,
    pub not_item_ids: Option<Vec<String>>,
    pub item_ids: Option<Vec<String>>,
    pub dataset_ids: Option<Vec<u32>>,
    pub not_item_name_prefix: Option<String>,
    pub accuracy_to: Option<u32>,
    pub evaluation_metrics_run_otucomes: Option<Vec<String>>,
    pub not_item_path_prefix: Option<String>,
    pub workflow_stage_ids: Option<Vec<u32>>,
    pub not_types: Option<Vec<String>>,
    pub map_to: Option<u32>,
    pub select_all: Option<bool>,
}

} // verus!
