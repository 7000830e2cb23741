//! Import payloads, and their construction from exported annotations.
//!
//! An exported annotation names its class; an import payload refers to the
//! class by its numeric id, which is looked up by exact name in a list of
//! candidate classes that the caller supplies. The first class of that name is
//! taken.
use crate::annotation::{AnnotationClass, Keypoint, Tag};
use crate::export::ImageAnnotation;
use crate::text::same_text;
use vstd::prelude::*;

verus! {

#[derive(Debug, Clone, PartialEq, Eq)]
pub struct AnnotationImportData {
    pub polygon: Option<AnnotationImportPolygon>,
    pub tag: Option<Tag>,
}

/// The outline of a polygon to import, its points in the order exported.
#[derive(Debug, Clone, PartialEq, Eq)]
pub struct AnnotationImportPolygon {
    pub path: Vec<Keypoint>,
}

/// The slots of the item that an annotation attaches to.
#[derive(Debug, Clone, PartialEq, Eq)]
pub struct AnnotationContext {
    pub slot_names: Vec<String>,
}

/// One annotation to import into an item.
#[derive(Debug, Clone, PartialEq, Eq)]
pub struct AnnotationImportAnnotation {
    pub id: String,
    pub data: AnnotationImportData,
    pub annotation_class_id: u32,
    pub context_keys: AnnotationContext,
}

/// The annotations to import into one item.
#[derive(Debug, Clone, PartialEq, Eq)]
pub struct AnnotationImport {
    pub annotations: Vec<AnnotationImportAnnotation>,
    pub overwrite: bool,
}

#[derive(Debug, Clone, PartialEq, Eq)]
pub enum ImportError {
    /// No candidate class has this name.
    NoMatchingClass(String),
    /// The first candidate class of this name has no id.
    MissingClassId(String),
}

/// Whether class `c` has exactly the name `name`.
pub open spec fn has_name(c: AnnotationClass, name: Seq<char>) -> bool {
    c.name matches Some(n) && n@ == name
}

/// Whether `i` is the first class of `cs` named `name`.
pub open spec fn is_first_named(cs: Seq<&AnnotationClass>, name: Seq<char>, i: int) -> bool {
    &&& 0 <= i < cs.len()
    &&& has_name(*cs[i], name)
    &&& forall|j: int| 0 <= j < i ==> !has_name(*cs[j], name)
}

/// The id of the first class named `name`: `None` when no class has the name,
/// `Some(None)` when that class has no id.
pub open spec fn class_id_for(cs: Seq<&AnnotationClass>, name: Seq<char>) -> Option<Option<u32>> {
    if exists|i: int| is_first_named(cs, name, i) {
        Some(cs[choose|i: int| is_first_named(cs, name, i)].id)
    } else {
        None
    }
}

/// What a lookup of the class named `name` returns, for each outcome.
pub open spec fn lookup_result(r: Result<u32, ImportError>, cs: Seq<&AnnotationClass>, name: Seq<char>) -> bool {
    match class_id_for(cs, name) {
        None => r matches Err(ImportError::NoMatchingClass(n)) && n@ == name,
        Some(None) => r matches Err(ImportError::MissingClassId(n)) && n@ == name,
        Some(Some(id)) => r == Ok::<u32, ImportError>(id),
    }
}

/// A text in the canonical form of a random (version 4) UUID: 36 lower-case
/// hexadecimal digits and hyphens, grouped 8-4-4-4-12.
pub open spec fn is_uuid_v4_text(s: Seq<char>) -> bool {
    &&& s.len() == 36
    &&& forall|i: int|
        0 <= i < 36 ==> if i == 8 || i == 13 || i == 18 || i == 23 {
            #[trigger] s[i] == '-'
        } else {
            is_lower_hex(s[i])
        }
    &&& s[14] == '4'
    &&& (s[19] == '8' || s[19] == '9' || s[19] == 'a' || s[19] == 'b')
}

pub open spec fn is_lower_hex(c: char) -> bool {
    (48 <= (c as u32) && (c as u32) <= 57) || (97 <= (c as u32) && (c as u32) <= 102)
}

/// Relies on `uuid::Uuid::new_v4` and the `Display` of `uuid::Uuid`: a random
/// version 4 UUID, written hyphenated in lower case.
#[verifier::external_body]
fn fresh_uuid() -> (r: String)
    ensures
        is_uuid_v4_text(r@),
{
    uuid::Uuid::new_v4().to_string()
}

/// An import annotation of class `id` that attaches to the one slot `slot_name`.
pub open spec fn imported_as(
    a: AnnotationImportAnnotation,
    id: u32,
    slot_name: Seq<char>,
) -> bool {
    &&& a.annotation_class_id == id
    &&& a.context_keys.slot_names@.len() == 1
    &&& a.context_keys.slot_names@[0]@ == slot_name
}

pub open spec fn polygon_data(a: AnnotationImportAnnotation, path: Seq<Keypoint>) -> bool {
    &&& a.data.polygon matches Some(p) && p.path@ == path
    &&& a.data.tag is None
}

pub open spec fn tag_data(a: AnnotationImportAnnotation, original: ImageAnnotation) -> bool {
    &&& a.data.polygon is None
    &&& a.data.tag == original.tag
}

impl AnnotationImportPolygon {
    pub fn from(path: Vec<Keypoint>) -> (r: Self)
        ensures
            r.path@ == path@,
    {
        AnnotationImportPolygon { path }
    }
}

impl AnnotationImportData {
    /// The data of a polygon annotation whose outline is `path`.
    pub fn from(path: Vec<Keypoint>) -> (r: Self)
        ensures
            r.polygon matches Some(p) && p.path@ == path@,
            r.tag is None,
    {
        AnnotationImportData { polygon: Some(AnnotationImportPolygon::from(path)), tag: None }
    }
}

impl AnnotationImportAnnotation {
    /// The id of the first class in `eligible_annotation_classes` whose name is
    /// exactly `class_name`.
    pub fn find_annotation_class_id(
        eligible_annotation_classes: &[&AnnotationClass],
        class_name: &str,
    ) -> (r: Result<u32, ImportError>)
        ensures
            lookup_result(r, eligible_annotation_classes@, class_name@),
    {
        let ghost cs = eligible_annotation_classes@;
        let mut i: usize = 0;
        while i < eligible_annotation_classes.len()
            invariant
                i <= cs.len(),
                cs == eligible_annotation_classes@,
                forall|j: int| 0 <= j < i ==> !has_name(*cs[j], class_name@),
            decreases cs.len() - i,
        {
            let c: &AnnotationClass = eligible_annotation_classes[i];
            let named = match &c.name {
                Some(n) => same_text(n.as_str(), class_name),
                None => false,
            };
            if named {
                proof {
                    assert(is_first_named(cs, class_name@, i as int));
                    let k = choose|k: int| is_first_named(cs, class_name@, k);
                    if k < i {
                    } else if k > i {
                        assert(!has_name(*cs[i as int], class_name@));
                    }
                    assert(k == i);
                }
                return match c.id {
                    Some(id) => Ok(id),
                    None => Err(ImportError::MissingClassId(String::from_str(class_name))),
                };
            }
            i = i + 1;
        }
        Err(ImportError::NoMatchingClass(String::from_str(class_name)))
    }

    /// A polygon annotation with the given id: its outline is `path`, its class
    /// the first candidate named as `original_annotation`'s class, and it
    /// attaches to the one slot `slot_name`.
    pub fn polygon_annotation_with_id(
        id: String,
        original_annotation: &ImageAnnotation,
        path: Vec<Keypoint>,
        eligible_annotation_classes: &[&AnnotationClass],
        slot_name: &str,
    ) -> (r: Result<Self, ImportError>)
        ensures
            match class_id_for(eligible_annotation_classes@, original_annotation.name@) {
                None => r matches Err(ImportError::NoMatchingClass(n)) && n@ == original_annotation.name@,
                Some(None) => r matches Err(ImportError::MissingClassId(n)) && n@ == original_annotation.name@,
                Some(Some(c)) => r matches Ok(a) && a.id == id && imported_as(a, c, slot_name@)
                    && polygon_data(a, path@),
            },
    {
        let class_id = match Self::find_annotation_class_id(
            eligible_annotation_classes,
            original_annotation.name.as_str(),
        ) {
            Ok(c) => c,
            Err(e) => {
                return Err(e);
            },
        };
        let mut slot_names: Vec<String> = Vec::new();
        slot_names.push(String::from_str(slot_name));
        Ok(AnnotationImportAnnotation {
            id,
            data: AnnotationImportData::from(path),
            annotation_class_id: class_id,
            context_keys: AnnotationContext { slot_names },
        })
    }

    /// A polygon annotation as `polygon_annotation_with_id` builds it, under a
    /// freshly drawn random UUID.
    pub fn new_polygon_annotation(
        original_annotation: &ImageAnnotation,
        path: Vec<Keypoint>,
        eligible_annotation_classes: &[&AnnotationClass],
        slot_name: &str,
    ) -> (r: Result<Self, ImportError>)
        ensures
            match class_id_for(eligible_annotation_classes@, original_annotation.name@) {
                None => r matches Err(ImportError::NoMatchingClass(n)) && n@ == original_annotation.name@,
                Some(None) => r matches Err(ImportError::MissingClassId(n)) && n@ == original_annotation.name@,
                Some(Some(c)) => r matches Ok(a) && is_uuid_v4_text(a.id@) && imported_as(a, c, slot_name@)
                    && polygon_data(a, path@),
            },
    {
        Self::polygon_annotation_with_id(
            fresh_uuid(),
            original_annotation,
            path,
            eligible_annotation_classes,
            slot_name,
        )
    }

    /// A tag annotation with the given id: its tag is `original_annotation`'s,
    /// its class the first candidate named as `original_annotation`'s class, and
    /// it attaches to the one slot `slot_name`.
    pub fn tag_annotation_with_id(
        id: String,
        original_annotation: &ImageAnnotation,
        eligible_annotation_classes: &[&AnnotationClass],
        slot_name: &str,
    ) -> (r: Result<Self, ImportError>)
        ensures
            match class_id_for(eligible_annotation_classes@, original_annotation.name@) {
                None => r matches Err(ImportError::NoMatchingClass(n)) && n@ == original_annotation.name@,
                Some(None) => r matches Err(ImportError::MissingClassId(n)) && n@ == original_annotation.name@,
                Some(Some(c)) => r matches Ok(a) && a.id == id && imported_as(a, c, slot_name@)
                    && tag_data(a, *original_annotation),
            },
    {
        let class_id = match Self::find_annotation_class_id(
            eligible_annotation_classes,
            original_annotation.name.as_str(),
        ) {
            Ok(c) => c,
            Err(e) => {
                return Err(e);
            },
        };
        let mut slot_names: Vec<String> = Vec::new();
        slot_names.push(String::from_str(slot_name));
        Ok(AnnotationImportAnnotation {
            id,
            data: AnnotationImportData { polygon: None, tag: original_annotation.tag },
            annotation_class_id: class_id,
            context_keys: AnnotationContext { slot_names },
        })
    }

    /// A tag annotation as `tag_annotation_with_id` builds it, under a freshly
    /// drawn random UUID.
    pub fn new_tag_annotation(
        original_annotation: &ImageAnnotation,
        eligible_annotation_classes: &[&AnnotationClass],
        slot_name: &str,
    ) -> (r: Result<Self, ImportError>)
        ensures
            match class_id_for(eligible_annotation_classes@, original_annotation.name@) {
                None => r matches Err(ImportError::NoMatchingClass(n)) && n@ == original_annotation.name@,
                Some(None) => r matches Err(ImportError::MissingClassId(n)) && n@ == original_annotation.name@,
                Some(Some(c)) => r matches Ok(a) && is_uuid_v4_text(a.id@) && imported_as(a, c, slot_name@)
                    && tag_data(a, *original_annotation),
            },
    {
        Self::tag_annotation_with_id(fresh_uuid(), original_annotation, eligible_annotation_classes, slot_name)
    }
}

} // verus!
