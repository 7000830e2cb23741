//! Datasets: their settings, exports, registration payloads and reports.
use crate::annotation::AnnotationClass;
use crate::item::{DataPayloadLevel, DatasetItemStatus, DatasetItemTypes, ExistingSimpleItem};
use crate::team::TypeCount;
use std::collections::HashMap;
use vstd::prelude::*;

verus! {

#[derive(Debug, Default, Clone, PartialEq, Eq)]
pub struct AnnotationHotKeys {
    pub key: String,
}

/// A dataset as the platform describes it. `progress` is the bit pattern of a
/// double-precision number.
#[derive(Debug, Default, Clone, PartialEq, Eq)]
pub struct Dataset {
    pub active: Option<bool>,
    pub archived: Option<bool>,
    pub archived_at: Option<String>,
    pub annotation_hotkeys: Option<HashMap<String, String>>,
    pub annotators_can_create_tags: Option<bool>,
    pub annotators_can_instantiate_workflows: Option<bool>,
    pub anyone_can_double_assign: Option<bool>,
    pub annotation_classes: Vec<Option<String>>,
    pub default_workflow_template_id: Option<u32>,
    pub id: Option<u32>,
    pub inserted_at: Option<String>,
    pub instructions: Option<String>,
    pub name: Option<String>,
    pub num_annotations: Option<Option<u32>>,
    pub num_annotators: Option<Option<u32>>,
    pub num_classes: Option<u32>,
    pub num_complete_files: Option<u32>,
    pub num_images: Option<u32>,
    pub num_items: Option<u32>,
    pub num_videos: Option<u32>,
    pub owner_id: Option<u32>,
    pub parent_id: Option<u32>,
    pub pdf_fit_page: Option<bool>,
    pub progress: Option<u64>,
    pub public: Option<bool>,
    pub reviewers_can_annotate: Option<bool>,
    pub slug: Option<String>,
    pub team_id: Option<u32>,
    pub team_slug: Option<String>,
    pub thumbnails: Vec<Option<String>>,
    pub updated_at: Option<String>,
    pub version: Option<u32>,
    pub work_size: Option<u32>,
    pub work_prioritization: Option<String>,
}

/// The settings of a dataset that can be changed.
#[derive(Debug, Default, Clone, PartialEq, Eq)]
pub struct DatasetUpdate {
    pub annotation_hotkeys: Option<HashMap<String, String>>,
    pub annotators_can_create_tags: Option<bool>,
    pub annotators_can_instantiate_workflows: Option<bool>,
    pub anyone_can_double_assign: Option<bool>,
    pub instructions: Option<String>,
    pub name: Option<String>,
    pub public: Option<bool>,
    pub reviewers_can_annotate: Option<bool>,
    pub work_size: Option<u32>,
    pub work_prioritization: Option<String>,
}

pub open spec fn same_opt_text(a: Option<String>, b: Option<String>) -> bool {
    match (a, b) {
        (Some(x), Some(y)) => x@ == y@,
        (None, None) => true,
        _ => false,
    }
}

fn clone_opt_text(o: &Option<String>) -> (r: Option<String>)
    ensures
        same_opt_text(r, *o),
{
    match o {
        Some(s) => Some(s.clone()),
        None => None,
    }
}

impl DatasetUpdate {
    /// The changeable settings of `value`, as they stand.
    pub fn from(value: &Dataset) -> (r: DatasetUpdate)
        ensures
            r.annotation_hotkeys is Some == value.annotation_hotkeys is Some,
            r.annotators_can_create_tags == value.annotators_can_create_tags,
            r.annotators_can_instantiate_workflows == value.annotators_can_instantiate_workflows,
            r.anyone_can_double_assign == value.anyone_can_double_assign,
            same_opt_text(r.instructions, value.instructions),
            same_opt_text(r.name, value.name),
            r.public == value.public,
            r.reviewers_can_annotate == value.reviewers_can_annotate,
            r.work_size == value.work_size,
            same_opt_text(r.work_prioritization, value.work_prioritization),
    {
        let annotation_hotkeys = match &value.annotation_hotkeys {
            Some(h) => Some(h.clone()),
            None => None,
        };
        DatasetUpdate {
            annotation_hotkeys,
            annotators_can_create_tags: value.annotators_can_create_tags,
            annotators_can_instantiate_workflows: value.annotators_can_instantiate_workflows,
            anyone_can_double_assign: value.anyone_can_double_assign,
            instructions: clone_opt_text(&value.instructions),
            name: clone_opt_text(&value.name),
            public: value.public,
            reviewers_can_annotate: value.reviewers_can_annotate,
            work_size: value.work_size,
            work_prioritization: clone_opt_text(&value.work_prioritization),
        }
    }
}

#[derive(Debug, Default, Clone, PartialEq, Eq)]
pub struct ExportMetadata {
    pub annotation_classes: Vec<Option<AnnotationClass>>,
    pub annotation_types: Vec<Option<TypeCount>>,
}

#[derive(Debug, Default, Clone, PartialEq, Eq)]
pub struct Export {
    pub name: Option<String>,
    pub download_url: Option<String>,
    pub format: Option<ExportFormat>,
    pub inserted_at: Option<String>,
    pub latest: Option<bool>,
    pub metadata: ExportMetadata,
    pub status: Option<String>,
    pub version: Option<u16>,
}

#[derive(Debug, Default, Clone, Copy, PartialEq, Eq)]
pub enum ExportFormat {
    #[default]
    DarwinJson2,
    Json,
    Xml,
    Coco,
    Cvat,
    PascalVoc,
    SemanticMask,
    InstanceMask,
}

/// The platform's name of each export format.
pub open spec fn export_format_name(f: ExportFormat) -> Seq<char> {
    match f {
        ExportFormat::DarwinJson2 => "darwin_json_2"@,
        ExportFormat::Json => "json"@,
        ExportFormat::Xml => "xml"@,
        ExportFormat::Coco => "coco"@,
        ExportFormat::Cvat => "cvat"@,
        ExportFormat::PascalVoc => "pascal_voc"@,
        ExportFormat::SemanticMask => "semantic-mask"@,
        ExportFormat::InstanceMask => "instance-mask"@,
    }
}

impl ExportFormat {
    pub fn as_str(&self) -> (r: &'static str)
        ensures
            r@ == export_format_name(*self),
    {
        match self {
            ExportFormat::DarwinJson2 => "darwin_json_2",
            ExportFormat::Json => "json",
            ExportFormat::Xml => "xml",
            ExportFormat::Coco => "coco",
            ExportFormat::Cvat => "cvat",
            ExportFormat::PascalVoc => "pascal_voc",
            ExportFormat::SemanticMask => "semantic-mask",
            ExportFormat::InstanceMask => "instance-mask",
        }
    }
}

/// Items already in a registered storage bucket, to add to a dataset.
#[derive(Debug, Default, Clone, PartialEq, Eq)]
pub struct RegisterExistingItemPayload {
    pub dataset_slug: String,
    pub storage_slug: String,
    pub items: Vec<ExistingSimpleItem>,
}

#[derive(Debug, Default, Clone, PartialEq, Eq)]
pub struct ResponseItem {
    pub dataset_item_id: Option<u64>,
    pub filename: Option<String>,
}

#[derive(Debug, Default, Clone, PartialEq, Eq)]
pub struct ArchiveResponseItems {
    pub affected_item_count: Option<i32>,
}

#[derive(Debug, Default, Clone, PartialEq, Eq)]
pub struct AddDataItemsResponse {
    pub blocked_items: Vec<Option<ResponseItem>>,
    pub items: Vec<Option<ResponseItem>>,
}

#[derive(Debug, Clone, PartialEq, Eq)]
pub struct SlotResponse {
    pub as_frames: bool,
    pub extract_views: bool,
    pub file_name: String,
    pub reason: Option<String>,
    pub metadata: DataPayloadLevel,
    pub slot_name: String,
    pub size_bytes: u64,
    pub item_type: DatasetItemTypes,
}

#[derive(Debug, Default, Clone, PartialEq, Eq)]
pub struct RegistrationResponseItem {
    pub id: Option<String>,
    pub name: Option<String>,
    pub path: Option<String>,
    pub slots: Vec<Option<SlotResponse>>,
}

#[derive(Debug, Default, Clone, PartialEq, Eq)]
pub struct RegisterExistingItemResponse {
    pub blocked_items: Vec<Option<RegistrationResponseItem>>,
    pub items: Vec<Option<RegistrationResponseItem>>,
}

#[derive(Debug, Clone, PartialEq, Eq)]
pub struct SetStageFilter {
    pub dataset_ids: Vec<u32>,
    pub select_all: bool,
    pub workflow_stage_ids: Option<Vec<String>>,
}

#[derive(Debug, Clone, PartialEq, Eq)]
pub struct SetStagePayloadV2 {
    pub filters: SetStageFilter,
    pub stage_id: String,
    pub workflow_id: String,
}

#[derive(Debug, Clone, PartialEq, Eq)]
pub struct SetStageResponse {
    pub created_commands: Option<u32>,
}

/// One row of a dataset's item report.
#[derive(Debug, Clone, PartialEq, Eq)]
pub struct ItemReport {
    pub filename: Option<String>,
    pub uploaded_date: Option<String>,
    pub status: Option<DatasetItemStatus>,
    pub workflow_start_date: Option<String>,
    pub workflow_complete_date: Option<String>,
    pub number_of_frames: Option<u32>,
    pub folder: Option<String>,
    pub time_spent_annotating_sec: Option<u64>,
    pub time_spent_reviewing_sec: Option<u64>,
    pub automation_time_annotating_sec: Option<u64>,
    pub automation_time_reviewing_sec: Option<u64>,
    /// Emails joined by semicolons, here and in the next field.
    pub annotators: Option<String>,
    pub reviewers: Option<String>,
    pub was_rejected_in_review: Option<bool>,
    pub url: Option<String>,
}

} // verus!
