//! The read-only shape of annotated items as the platform exports them.
use crate::annotation::{BoundingBox, Polygon, Tag, Text};
use crate::item::DatasetItemTypes;
use vstd::prelude::*;

verus! {

#[derive(Debug, Clone, PartialEq, Eq)]
pub struct Annotator {
    pub email: String,
    /// First name and last name.
    pub full_name: String,
}

/// One annotation of an exported item. Each geometry field is independent:
/// whatever combination the export holds is kept.
#[derive(Debug, Clone, Default, PartialEq, Eq)]
pub struct ImageAnnotation {
    pub id: Option<String>,
    /// The name of the annotation class.
    pub name: String,
    pub annotators: Option<Vec<Annotator>>,
    pub reviewers: Option<Vec<Annotator>>,
    pub bounding_box: Option<BoundingBox>,
    pub tag: Option<Tag>,
    pub polygon: Option<Polygon>,
    pub text: Option<Text>,
}

#[derive(Clone, Debug, Default, PartialEq, Eq)]
pub struct Item {
    pub name: Option<String>,
    pub path: Option<String>,
    pub source_info: Option<SourceInfo>,
    pub slots: Vec<Option<Slot>>,
}

#[derive(Clone, Debug, Default, PartialEq, Eq)]
pub struct SourceInfo {
    pub dataset: Dataset,
    pub item_id: String,
    pub team: Team,
    pub workview_url: String,
}

#[derive(Clone, Debug, Default, PartialEq, Eq)]
pub struct Dataset {
    pub name: String,
    pub slug: String,
    pub dataset_management_url: String,
}

#[derive(Clone, Debug, Default, PartialEq, Eq)]
pub struct Team {
    pub name: String,
    pub slug: String,
}

#[derive(Clone, Debug, Default, PartialEq, Eq)]
pub struct Slot {
    pub slot_type: DatasetItemTypes,
    pub slot_name: String,
    pub width: u32,
    pub height: u32,
    pub thumbnail_url: String,
    pub source_files: Vec<SourceFile>,
}

#[derive(Clone, Debug, Default, PartialEq, Eq)]
pub struct SourceFile {
    pub file_name: String,
    pub storage_key: Option<String>,
    pub url: String,
}

/// A whole export in the second revision of the schema.
#[derive(Clone, Debug, Default, PartialEq, Eq)]
pub struct JsonExportV2 {
    pub version: String,
    pub schema_ref: String,
    pub item: Item,
    pub annotations: Vec<ImageAnnotation>,
}

} // verus!
