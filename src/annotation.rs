//! Geometry primitives, the annotation type model with its numeric codes, and
//! the annotation classes of a team.
//!
//! Coordinates are single-precision numbers; they are carried here as their
//! IEEE 754 bit patterns (`f32::to_bits`), since nothing in this library
//! computes with them.
use crate::text::{lowercase_of, same_text, to_lowercase};
use std::collections::HashMap;
use vstd::prelude::*;

verus! {

#[derive(Debug, Clone, Default, PartialEq, Eq)]
pub struct AnnotationClassMetadata {
    pub color: Option<String>,
    pub polygon: Option<HashMap<String, String>>,
    pub auto_annotate: Option<HashMap<String, String>>,
    pub inference: Option<HashMap<String, String>>,
    pub measures: Option<HashMap<String, String>>,
}

/// A box with its top-left corner at (`x`, `y`); each field is the bit pattern
/// of a single-precision number.
#[derive(Debug, Clone, Copy, Default, PartialEq, Eq)]
pub struct BoundingBox {
    pub h: Option<u32>,
    pub w: Option<u32>,
    pub x: Option<u32>,
    pub y: Option<u32>,
}

/// Paths of points; each path is one outline, several make a complex polygon.
#[derive(Debug, Clone, Default, PartialEq, Eq)]
pub struct Polygon {
    pub paths: Vec<Vec<Keypoint>>,
}

/// A point; each coordinate is the bit pattern of a single-precision number.
#[derive(Debug, Clone, Copy, Default, PartialEq, Eq)]
pub struct Keypoint {
    pub x: u32,
    pub y: u32,
}

/// The mark of a tag annotation: its presence is all it says.
#[derive(Debug, Clone, Copy, Default, PartialEq, Eq)]
pub struct Tag {}

#[derive(Debug, Clone, Default, PartialEq, Eq)]
pub struct Text {
    pub text: String,
}

/// The kinds of annotation, with the payload of those that carry one.
#[derive(Debug, Clone, PartialEq, Eq)]
pub enum AnnotationType {
    Attributes,
    AutoAnnotate,
    BoundingBox(BoundingBox),
    Cuboid,
    DirectionalVector,
    Ellipse,
    Inference,
    InstanceId,
    Keypoint(Keypoint),
    Line,
    Measures,
    Polygon(Polygon),
    Skeleton,
    Tag(Tag),
    Text(Text),
    RasterLayer,
}

#[derive(Debug, Clone, PartialEq, Eq)]
pub enum AnnotationError {
    /// The text names no kind of annotation.
    InvalidAnnotationType(String),
    /// The platform's code for this kind (named here) is not known.
    UnassignedCode(String),
}

/// The platform's name of each kind of annotation.
pub open spec fn kind_name(t: AnnotationType) -> Seq<char> {
    match t {
        AnnotationType::Attributes => "attributes"@,
        AnnotationType::AutoAnnotate => "auto_annotate"@,
        AnnotationType::BoundingBox(_) => "bounding_box"@,
        AnnotationType::Cuboid => "cuboid"@,
        AnnotationType::DirectionalVector => "directional_vector"@,
        AnnotationType::Ellipse => "ellipse"@,
        AnnotationType::Inference => "inference"@,
        AnnotationType::InstanceId => "instance_id"@,
        AnnotationType::Keypoint(_) => "keypoint"@,
        AnnotationType::Line => "line"@,
        AnnotationType::Measures => "measures"@,
        AnnotationType::Polygon(_) => "polygon"@,
        AnnotationType::Skeleton => "skeleton"@,
        AnnotationType::Tag(_) => "tag"@,
        AnnotationType::Text(_) => "text"@,
        AnnotationType::RasterLayer => "raster_layer"@,
    }
}

/// The names that `AnnotationType::try_from` accepts (after lower-casing).
pub open spec fn accepted_type_name(n: Seq<char>) -> bool {
    n == "attributes"@ || n == "auto_annotate"@ || n == "bounding_box"@ || n == "cuboid"@
        || n == "directional_vector"@ || n == "ellipse"@ || n == "inference"@ || n
        == "instance_id"@ || n == "keypoint"@ || n == "line"@ || n == "measures"@ || n
        == "polygon"@ || n == "skeleton"@ || n == "tag"@ || n == "text"@
}

/// A payload as a kind named without one gets it: empty, and zero where it
/// holds numbers.
pub open spec fn has_empty_payload(t: AnnotationType) -> bool {
    match t {
        AnnotationType::BoundingBox(b) => b.h is None && b.w is None && b.x is None && b.y is None,
        AnnotationType::Keypoint(k) => k.x == 0 && k.y == 0,
        AnnotationType::Polygon(p) => p.paths@.len() == 0,
        AnnotationType::Text(t) => t.text@.len() == 0,
        _ => true,
    }
}

/// The platform's numeric code of each kind, where one is assigned.
pub open spec fn type_code(t: AnnotationType) -> Option<u32> {
    match t {
        AnnotationType::Tag(_) => Some(1),
        AnnotationType::BoundingBox(_) => Some(2),
        AnnotationType::Polygon(_) => Some(3),
        AnnotationType::Attributes => Some(5),
        AnnotationType::Text(_) => Some(6),
        AnnotationType::Line => Some(11),
        AnnotationType::Skeleton => Some(12),
        _ => None,
    }
}

impl AnnotationType {
    /// The kind of annotation that `value` names, in any case; a kind with a
    /// payload gets an empty one.
    pub fn try_from(value: &str) -> (r: Result<AnnotationType, AnnotationError>)
        ensures
            r is Ok <==> accepted_type_name(lowercase_of(value@)),
            r matches Ok(t) ==> kind_name(t) == lowercase_of(value@) && has_empty_payload(t),
            r is Err ==> (r matches Err(AnnotationError::InvalidAnnotationType(s)) && s@ == value@),
    {
        let lower = to_lowercase(value);
        match Self::from_lowercase_name(lower.as_str()) {
            Some(t) => Ok(t),
            None => Err(AnnotationError::InvalidAnnotationType(String::from_str(value))),
        }
    }

    /// The kind of annotation that the lower-case `name` names exactly; a kind
    /// with a payload gets an empty one.
    pub fn from_lowercase_name(name: &str) -> (r: Option<AnnotationType>)
        ensures
            r is Some <==> accepted_type_name(name@),
            r matches Some(t) ==> kind_name(t) == name@ && has_empty_payload(t),
    {
        if same_text(name, "attributes") {
            Some(AnnotationType::Attributes)
        } else if same_text(name, "auto_annotate") {
            Some(AnnotationType::AutoAnnotate)
        } else if same_text(name, "bounding_box") {
            Some(AnnotationType::BoundingBox(BoundingBox { h: None, w: None, x: None, y: None }))
        } else if same_text(name, "cuboid") {
            Some(AnnotationType::Cuboid)
        } else if same_text(name, "directional_vector") {
            Some(AnnotationType::DirectionalVector)
        } else if same_text(name, "ellipse") {
            Some(AnnotationType::Ellipse)
        } else if same_text(name, "inference") {
            Some(AnnotationType::Inference)
        } else if same_text(name, "instance_id") {
            Some(AnnotationType::InstanceId)
        } else if same_text(name, "keypoint") {
            Some(AnnotationType::Keypoint(Keypoint { x: 0, y: 0 }))
        } else if same_text(name, "line") {
            Some(AnnotationType::Line)
        } else if same_text(name, "measures") {
            Some(AnnotationType::Measures)
        } else if same_text(name, "polygon") {
            Some(AnnotationType::Polygon(Polygon { paths: Vec::new() }))
        } else if same_text(name, "skeleton") {
            Some(AnnotationType::Skeleton)
        } else if same_text(name, "tag") {
            Some(AnnotationType::Tag(Tag {  }))
        } else if same_text(name, "text") {
            Some(AnnotationType::Text(Text { text: String::new() }))
        } else {
            None
        }
    }

    /// The platform's name of this kind.
    pub fn name(&self) -> (r: String)
        ensures
            r@ == kind_name(*self),
    {
        match self {
            AnnotationType::Attributes => String::from_str("attributes"),
            AnnotationType::AutoAnnotate => String::from_str("auto_annotate"),
            AnnotationType::BoundingBox(_) => String::from_str("bounding_box"),
            AnnotationType::Cuboid => String::from_str("cuboid"),
            AnnotationType::DirectionalVector => String::from_str("directional_vector"),
            AnnotationType::Ellipse => String::from_str("ellipse"),
            AnnotationType::Inference => String::from_str("inference"),
            AnnotationType::InstanceId => String::from_str("instance_id"),
            AnnotationType::Keypoint(_) => String::from_str("keypoint"),
            AnnotationType::Line => String::from_str("line"),
            AnnotationType::Measures => String::from_str("measures"),
            AnnotationType::Polygon(_) => String::from_str("polygon"),
            AnnotationType::Skeleton => String::from_str("skeleton"),
            AnnotationType::Tag(_) => String::from_str("tag"),
            AnnotationType::Text(_) => String::from_str("text"),
            AnnotationType::RasterLayer => String::from_str("raster_layer"),
        }
    }

    /// The platform's numeric code of this kind; a kind without an assigned
    /// code is an error naming it.
    pub fn code(&self) -> (r: Result<u32, AnnotationError>)
        ensures
            match type_code(*self) {
                Some(c) => r == Ok::<u32, AnnotationError>(c),
                None => r matches Err(AnnotationError::UnassignedCode(n)) && n@ == kind_name(*self),
            },
    {
        match self {
            AnnotationType::Tag(_) => Ok(1),
            AnnotationType::BoundingBox(_) => Ok(2),
            AnnotationType::Polygon(_) => Ok(3),
            AnnotationType::Attributes => Ok(5),
            AnnotationType::Text(_) => Ok(6),
            AnnotationType::Line => Ok(11),
            AnnotationType::Skeleton => Ok(12),
            _ => Err(AnnotationError::UnassignedCode(self.name())),
        }
    }
}

#[derive(Debug, Default, Clone, PartialEq, Eq)]
pub struct AnnotationDataset {
    pub id: Option<u32>,
}

/// An example image of a class. `x`, `y` and `scale` are bit patterns of
/// double-precision numbers (`f64::to_bits`).
#[derive(Debug, Default, Clone, PartialEq, Eq)]
pub struct AnnotationClassImage {
    pub id: Option<String>,
    pub index: Option<u32>,
    pub key: Option<String>,
    pub y: Option<u64>,
    pub x: Option<u64>,
    pub scale: Option<u64>,
    pub annotation_class_id: Option<u32>,
    pub crop_key: Option<String>,
    pub image_height: Option<u32>,
    pub image_width: Option<u32>,
    pub crop_url: Option<String>,
    pub original_image_url: Option<String>,
}

/// An entry of a team's registry of annotation classes.
#[derive(Debug, Default, Clone, PartialEq, Eq)]
pub struct AnnotationClass {
    pub annotation_class_image_url: Option<String>,
    pub annotation_types: Vec<Option<String>>,
    pub dataset_id: Option<u32>,
    pub datasets: Vec<Option<AnnotationDataset>>,
    pub id: Option<u32>,
    pub team_id: Option<u32>,
    pub description: Option<String>,
    pub images: Vec<AnnotationClassImage>,
    pub inserted_at: Option<String>,
    pub metadata: Option<AnnotationClassMetadata>,
    pub name: Option<String>,
    pub updated_at: Option<String>,
}

} // verus!
