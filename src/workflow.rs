//! Workflows: their stages, edges and the payloads that assign items to them.
use std::collections::HashMap;
use vstd::prelude::*;

verus! {

#[derive(Debug, Clone, Copy, Default, PartialEq, Eq)]
pub enum StageType {
    #[default]
    Annotate,
    Complete,
    Consensus,
    Model,
    New,
    Review,
    Dataset,
    Discard,
}

pub open spec fn stage_type_text(t: StageType) -> Seq<char> {
    match t {
        StageType::Annotate => "Annotate"@,
        StageType::Complete => "Complete"@,
        StageType::Consensus => "Consensus"@,
        StageType::Model => "Model"@,
        StageType::New => "New"@,
        StageType::Review => "Review"@,
        StageType::Dataset => "Dataset"@,
        StageType::Discard => "Discard"@,
    }
}

impl StageType {
    /// The stage type as it is shown to people.
    pub fn to_string(&self) -> (r: String)
        ensures
            r@ == stage_type_text(*self),
    {
        match self {
            StageType::Annotate => String::from_str("Annotate"),
            StageType::Complete => String::from_str("Complete"),
            StageType::Consensus => String::from_str("Consensus"),
            StageType::Model => String::from_str("Model"),
            StageType::New => String::from_str("New"),
            StageType::Review => String::from_str("Review"),
            StageType::Dataset => String::from_str("Dataset"),
            StageType::Discard => String::from_str("Discard"),
        }
    }
}

#[derive(Debug, Clone, PartialEq, Eq)]
pub struct MetaData {
    pub ready_for_completion: Option<bool>,
    pub previous_stage_number: Option<u32>,
    pub review_status: Option<String>,
    pub review_status_modified_at: Option<String>,
}

/// `sampling_rate` is the bit pattern of a double-precision number.
#[derive(Debug, Clone, PartialEq, Eq)]
pub struct TemplateAssignee {
    pub assignee_id: Option<u32>,
    pub sampling_rate: Option<u64>,
}

#[derive(Debug, Default, Clone, PartialEq, Eq)]
pub struct FilterAssignItemPayload {
    pub statuses: Option<Vec<StageType>>,
    pub dataset_ids: Vec<u32>,
    pub item_ids: Option<Vec<String>>,
    pub select_all: bool,
}

#[derive(Debug, Default, Clone, PartialEq, Eq)]
pub struct AssignItemPayload {
    pub filters: FilterAssignItemPayload,
    pub assignee_email: String,
    pub workflow_id: String,
}

#[derive(Debug, Default, Clone, PartialEq, Eq)]
pub struct AssignItemResponse {
    pub created_commands: Option<u32>,
}

#[derive(Debug, Default, Clone, PartialEq, Eq)]
pub struct WorkflowDataset {
    pub annotation_hotkeys: Option<HashMap<String, String>>,
    pub annotators_can_instantiate_workflows: Option<bool>,
    pub id: Option<u32>,
    pub instructions: Option<String>,
    pub name: Option<String>,
}

#[derive(Debug, Default, Clone, PartialEq, Eq)]
pub struct WorkflowProgress {
    pub complete: Option<u32>,
    pub idle: Option<u32>,
    pub in_progress: Option<u32>,
    pub total: Option<u32>,
}

#[derive(Debug, Default, Clone, PartialEq, Eq)]
pub struct StageConfig {
    pub allowed_class_ids: Option<String>,
    pub annotation_group_id: Option<String>,
    pub assignable_to: Option<String>,
    pub authorization_header: Option<String>,
    pub auto_instantiate: Option<bool>,
    pub champion_stage_id: Option<String>,
    pub class_mapping: Option<Vec<String>>,
    pub dataset_id: Option<u32>,
    pub from_non_default_v1_template: Option<bool>,
    pub include_annotations: Option<bool>,
    pub initial: Option<bool>,
    pub iou_thresholds: Option<String>,
    pub model_id: Option<String>,
    pub model_type: Option<String>,
    pub parallel_stage_ids: Option<String>,
    pub readonly: Option<bool>,
    pub retry_if_fails: Option<bool>,
    pub rules: Option<Vec<String>>,
    pub skippable: Option<bool>,
    pub test_stage_id: Option<String>,
    pub threshold: Option<String>,
    pub url: Option<String>,
    pub x: Option<u32>,
    pub y: Option<u32>,
}

#[derive(Debug, Default, Clone, PartialEq, Eq)]
pub struct StageEdge {
    pub id: Option<String>,
    pub name: Option<String>,
    pub source_stage_id: Option<String>,
    pub target_stage_id: Option<String>,
}

#[derive(Debug, Default, Clone, PartialEq, Eq)]
pub struct WorkflowStageAssignees {
    pub stage_id: Option<String>,
    pub user_id: Option<u32>,
}

#[derive(Debug, Default, Clone, PartialEq, Eq)]
pub struct WorkflowStageV2 {
    pub assignable_users: Vec<Option<WorkflowStageAssignees>>,
    pub config: Option<StageConfig>,
    pub edges: Vec<Option<StageEdge>>,
    pub id: Option<String>,
    pub name: Option<String>,
    pub stage_type: Option<StageType>,
}

#[derive(Debug, Default, Clone, PartialEq, Eq)]
pub struct WorkflowV2 {
    pub dataset: Option<WorkflowDataset>,
    pub id: Option<String>,
    pub inserted_at: Option<String>,
    pub name: Option<String>,
    pub progress: Option<WorkflowProgress>,
    pub stages: Vec<Option<WorkflowStageV2>>,
    pub team_id: Option<u32>,
    pub thumbnails: Vec<Option<String>>,
    pub updated_at: Option<String>,
    pub work_batch_requested: Option<bool>,
    pub additional_prop: Option<u32>,
}

#[derive(Debug, Default, Clone, PartialEq, Eq)]
pub struct WorkflowBuilder {
    pub stages: Vec<WorkflowStageV2>,
    pub name: Option<String>,
}

} // verus!
