//! Dataset items: images, slots, upload and registration payloads.
use crate::levels::{ImageLevel, Levels};
use crate::text::{lowercase_of, same_text, to_lowercase};
use crate::workflow::StageType;
use std::collections::HashMap;
use vstd::prelude::*;

verus! {

#[derive(Debug, Default, Clone, PartialEq, Eq)]
pub struct Image {
    pub external: Option<bool>,
    pub format: Option<String>,
    pub height: Option<u32>,
    pub width: Option<u32>,
    pub id: Option<u32>,
    pub key: Option<String>,
    pub levels: Option<Levels>,
    pub original_filename: Option<String>,
    pub thumbnail_url: Option<String>,
    pub uploaded: Option<bool>,
    pub url: Option<String>,
}

#[derive(Debug, Default, Clone, PartialEq, Eq)]
pub struct DatasetImage {
    pub dataset_id: Option<u32>,
    pub dataset_video_id: Option<u32>,
    pub id: Option<u32>,
    pub image: Option<Image>,
    pub seq: Option<u32>,
    pub set: Option<u32>,
}

#[derive(Debug, Clone, PartialEq, Eq)]
pub struct DatasetVideo {}

#[derive(Debug, Default, Clone, Copy, PartialEq, Eq)]
pub enum DatasetItemTypes {
    #[default]
    Image,
    Video,
    Pdf,
    Dicom,
    TiledImage,
}

pub open spec fn item_type_text(t: DatasetItemTypes) -> Seq<char> {
    match t {
        DatasetItemTypes::Image => "Image"@,
        DatasetItemTypes::Video => "Video"@,
        DatasetItemTypes::Pdf => "PDF"@,
        DatasetItemTypes::Dicom => "DICOM"@,
        DatasetItemTypes::TiledImage => "tiled_image"@,
    }
}

impl DatasetItemTypes {
    /// The item type as it is shown to people.
    pub fn to_string(&self) -> (r: String)
        ensures
            r@ == item_type_text(*self),
    {
        match self {
            DatasetItemTypes::Image => String::from_str("Image"),
            DatasetItemTypes::Video => String::from_str("Video"),
            DatasetItemTypes::Pdf => String::from_str("PDF"),
            DatasetItemTypes::Dicom => String::from_str("DICOM"),
            DatasetItemTypes::TiledImage => String::from_str("tiled_image"),
        }
    }
}

#[derive(Debug, Default, Clone, Copy, PartialEq, Eq)]
pub enum DatasetItemStatus {
    Annotate,
    Archived,
    Complete,
    Error,
    #[default]
    New,
    Processing,
    Review,
    Uploading,
}

/// The status as it is shown to people.
pub open spec fn item_status_text(s: DatasetItemStatus) -> Seq<char> {
    match s {
        DatasetItemStatus::Annotate => "Annotate"@,
        DatasetItemStatus::Archived => "Archived"@,
        DatasetItemStatus::Complete => "Complete"@,
        DatasetItemStatus::Error => "Error"@,
        DatasetItemStatus::New => "New"@,
        DatasetItemStatus::Processing => "Processing"@,
        DatasetItemStatus::Review => "Review"@,
        DatasetItemStatus::Uploading => "Uploading"@,
    }
}

/// The status as the platform spells it.
pub open spec fn item_status_name(s: DatasetItemStatus) -> Seq<char> {
    match s {
        DatasetItemStatus::Annotate => "annotate"@,
        DatasetItemStatus::Archived => "archived"@,
        DatasetItemStatus::Complete => "complete"@,
        DatasetItemStatus::Error => "error"@,
        DatasetItemStatus::New => "new"@,
        DatasetItemStatus::Processing => "processing"@,
        DatasetItemStatus::Review => "review"@,
        DatasetItemStatus::Uploading => "uploading"@,
    }
}

/// The names that `DatasetItemStatus::try_from` accepts (after lower-casing).
pub open spec fn accepted_status_name(n: Seq<char>) -> bool {
    n == "annotate"@ || n == "archived"@ || n == "complete"@ || n == "error"@ || n == "new"@ || n
        == "processing"@ || n == "review"@ || n == "uploading"@
}

/// A text that names no item status.
#[derive(Debug, Clone, PartialEq, Eq)]
pub struct InvalidItemStatus(pub String);

impl DatasetItemStatus {
    pub fn to_string(&self) -> (r: String)
        ensures
            r@ == item_status_text(*self),
    {
        match self {
            DatasetItemStatus::Annotate => String::from_str("Annotate"),
            DatasetItemStatus::Archived => String::from_str("Archived"),
            DatasetItemStatus::Complete => String::from_str("Complete"),
            DatasetItemStatus::Error => String::from_str("Error"),
            DatasetItemStatus::New => String::from_str("New"),
            DatasetItemStatus::Processing => String::from_str("Processing"),
            DatasetItemStatus::Review => String::from_str("Review"),
            DatasetItemStatus::Uploading => String::from_str("Uploading"),
        }
    }

    /// The status that `value` names, in any case.
    pub fn try_from(value: &str) -> (r: Result<DatasetItemStatus, InvalidItemStatus>)
        ensures
            r matches Ok(s) ==> item_status_name(s) == lowercase_of(value@),
            r is Ok <==> accepted_status_name(lowercase_of(value@)),
            r matches Err(InvalidItemStatus(t)) ==> t@ == value@,
    {
        let lower = to_lowercase(value);
        match Self::from_lowercase_name(lower.as_str()) {
            Some(s) => Ok(s),
            None => Err(InvalidItemStatus(String::from_str(value))),
        }
    }

    /// The status that the lower-case `name` names exactly.
    pub fn from_lowercase_name(name: &str) -> (r: Option<DatasetItemStatus>)
        ensures
            r matches Some(s) ==> item_status_name(s) == name@,
            r is Some <==> accepted_status_name(name@),
    {
        if same_text(name, "annotate") {
            Some(DatasetItemStatus::Annotate)
        } else if same_text(name, "archived") {
            Some(DatasetItemStatus::Archived)
        } else if same_text(name, "complete") {
            Some(DatasetItemStatus::Complete)
        } else if same_text(name, "error") {
            Some(DatasetItemStatus::Error)
        } else if same_text(name, "new") {
            Some(DatasetItemStatus::New)
        } else if same_text(name, "processing") {
            Some(DatasetItemStatus::Processing)
        } else if same_text(name, "review") {
            Some(DatasetItemStatus::Review)
        } else if same_text(name, "uploading") {
            Some(DatasetItemStatus::Uploading)
        } else {
            None
        }
    }
}

#[derive(Debug, Clone, PartialEq, Eq)]
pub struct DataPayloadLevel {
    pub levels: HashMap<usize, ImageLevel>,
    pub base_key: String,
}

#[derive(Debug, Clone, PartialEq, Eq)]
pub struct AddDataPayload {
    pub item_type: DatasetItemTypes,
    pub filename: String,
    pub thumbnail_key: String,
    pub path: String,
    pub key: String,
    pub width: u32,
    pub height: u32,
    pub metadata: DataPayloadLevel,
}

#[derive(Debug, Default, Clone, PartialEq, Eq)]
pub struct NewSimpleItem {
    pub as_frames: bool,
    pub extract_views: bool,
    /// A positive whole number, or `native`.
    pub fps: Option<String>,
    pub metadata: HashMap<String, String>,
    pub name: String,
    pub path: String,
    pub tags: Vec<String>,
    pub typ: DatasetItemTypes,
}

#[derive(Debug, Clone, PartialEq, Eq)]
pub struct RegisterNewItemOptions {
    pub force_tiling: bool,
    pub ignore_dicom_layout: bool,
}

impl Default for RegisterNewItemOptions {
    fn default() -> (r: Self)
        ensures
            !r.force_tiling,
            r.ignore_dicom_layout,
    {
        RegisterNewItemOptions { force_tiling: false, ignore_dicom_layout: true }
    }
}

#[derive(Debug, Default, Clone, PartialEq, Eq)]
pub struct RegisterNewSimpleItemRequest {
    pub dataset_slug: String,
    pub items: Vec<NewSimpleItem>,
    pub options: RegisterNewItemOptions,
}

#[derive(Debug, Default, Clone, PartialEq, Eq)]
pub struct ImageSection {
    pub height: u32,
    pub width: u32,
    pub size_bytes: u32,
    pub section_index: usize,
    pub storage_hq_key: String,
    pub image_section_type: String,
}

#[derive(Debug, Clone, PartialEq, Eq)]
pub struct Slot {
    pub sections: Vec<ImageSection>,
    pub file_name: String,
    pub size_bytes: u32,
    pub slot_name: String,
    pub storage_key: String,
    pub storage_thumbnail_key: String,
    pub slot_type: DatasetItemTypes,
    pub metadata: DataPayloadLevel,
}

#[derive(Debug, Clone, PartialEq, Eq)]
pub struct ExistingSimpleItem {
    pub name: String,
    pub path: String,
    pub slots: Vec<Slot>,
}

#[derive(Debug, Clone, PartialEq, Eq)]
pub struct ItemSlotMetadata {
    pub levels: Option<Levels>,
    pub base_key: Option<String>,
    pub height: Option<u32>,
    pub width: Option<u32>,
}

/// `fps` is the bit pattern of a single-precision number.
#[derive(Debug, Clone, PartialEq, Eq)]
pub struct ItemSlot {
    pub file_name: Option<String>,
    pub fps: Option<u32>,
    pub id: Option<String>,
    pub is_external: Option<bool>,
    pub metadata: Option<ItemSlotMetadata>,
    pub size_bytes: Option<u64>,
    pub slot_name: Option<String>,
    pub streamable: Option<bool>,
    pub total_sections: Option<u32>,
    pub item_slot_type: Option<DatasetItemTypes>,
    pub upload_id: Option<String>,
    pub legacy_item_id: Option<i64>,
}

#[derive(Debug, Clone, PartialEq, Eq)]
pub struct DatasetItemLayout {
    pub slots: Vec<Option<String>>,
    pub layout_type: Option<String>,
    pub version: Option<u32>,
}

#[derive(Debug, Clone, PartialEq, Eq)]
pub struct ProcessingError {
    pub message: Option<String>,
    pub processing_error_type: Option<String>,
    pub http_status_code: Option<i32>,
    pub stage: Option<String>,
    pub storage_key: Option<String>,
    pub raw_error: Option<String>,
}

#[derive(Debug, Clone, Default, PartialEq, Eq)]
pub struct DatasetItemUploads {
    pub upload_type: Option<String>,
    pub file_name: Option<String>,
    pub processing_status: Option<String>,
    pub slot_name: Option<String>,
    pub upload_id: Option<String>,
    pub processing_error: Option<ProcessingError>,
    pub as_frames: Option<bool>,
}

#[derive(Debug, Clone, Default, PartialEq, Eq)]
pub struct DatasetItemV2 {
    pub archived: Option<bool>,
    pub cursor: Option<String>,
    pub dataset_id: Option<u32>,
    pub id: Option<String>,
    pub inserted_at: Option<String>,
    pub layout: Option<DatasetItemLayout>,
    pub name: Option<String>,
    pub path: Option<String>,
    pub priority: Option<u32>,
    pub processing_status: Option<DatasetItemStatus>,
    pub slot_types: Vec<Option<DatasetItemTypes>>,
    pub slots: Vec<Option<ItemSlot>>,
    pub status: Option<DatasetItemStatus>,
    pub tags: Vec<Option<String>>,
    pub updated_at: Option<String>,
    pub uploads: Vec<Option<DatasetItemUploads>>,
    pub workflow_status: Option<StageType>,
}

#[derive(Debug, Clone, Default, PartialEq, Eq)]
pub struct ItemPage {
    pub count: Option<u32>,
    pub next: Option<String>,
    pub previous: Option<String>,
}

#[derive(Debug, Clone, Default, PartialEq, Eq)]
pub struct Item {
    pub items: Vec<Option<DatasetItemV2>>,
    pub page: ItemPage,
}

} // verus!
