use darwin_v7::annotation::{AnnotationClass, Keypoint, Polygon, Tag};
use darwin_v7::export::ImageAnnotation;
use darwin_v7::imports::{AnnotationImportAnnotation, AnnotationImportData, ImportError};

fn create_sample_image_annotation(tag: Option<Tag>) -> ImageAnnotation {
    ImageAnnotation {
        name: "Sample Class".to_string(),
        tag,
        ..ImageAnnotation::default()
    }
}

fn create_sample_annotation_class(name: &str, id: u32) -> AnnotationClass {
    AnnotationClass {
        name: Some(name.to_string()),
        id: Some(id),
        ..AnnotationClass::default()
    }
}

fn point(x: f32, y: f32) -> Keypoint {
    Keypoint { x: x.to_bits(), y: y.to_bits() }
}

fn is_uuid_v4(s: &str) -> bool {
    let b = s.as_bytes();
    b.len() == 36
        && b.iter().enumerate().all(|(i, c)| {
            if i == 8 || i == 13 || i == 18 || i == 23 {
                *c == b'-'
            } else {
                c.is_ascii_digit() || (b'a'..=b'f').contains(c)
            }
        })
        && b[14] == b'4'
        && matches!(b[19], b'8' | b'9' | b'a' | b'b')
}

#[test]
fn test_new_polygon_annotation_success() {
    let original_annotation = create_sample_image_annotation(None);
    let path = vec![point(10.0, 10.0), point(20.0, 20.0)];
    let eligible_annotation_classes = &[&create_sample_annotation_class("Sample Class", 1)];

    let result = AnnotationImportAnnotation::new_polygon_annotation(
        &original_annotation,
        path,
        eligible_annotation_classes,
        "sample_slot",
    )
    .unwrap();

    assert_eq!(result.id.len(), 36);
    assert!(result.data.polygon.is_some());
    assert_eq!(result.annotation_class_id, 1);
    assert_eq!(result.context_keys.slot_names, vec!["sample_slot".to_string()]);
}

#[test]
fn test_new_polygon_annotation_with_invalid_class() {
    let original_annotation = create_sample_image_annotation(None);
    let path = vec![point(10.0, 10.0), point(20.0, 20.0)];
    let eligible_annotation_classes: &[&AnnotationClass] = &[];

    let result = AnnotationImportAnnotation::new_polygon_annotation(
        &original_annotation,
        path,
        eligible_annotation_classes,
        "sample_slot",
    );

    assert!(result.is_err());
}

#[test]
fn test_new_tag_annotation_success() {
    let original_annotation = create_sample_image_annotation(Some(Tag {}));
    let eligible_annotation_classes = &[&create_sample_annotation_class("Sample Class", 1)];

    let result = AnnotationImportAnnotation::new_tag_annotation(
        &original_annotation,
        eligible_annotation_classes,
        "sample_slot",
    )
    .unwrap();

    assert_eq!(result.id.len(), 36);
    assert!(result.data.tag.is_some());
    assert_eq!(result.annotation_class_id, 1);
    assert_eq!(result.context_keys.slot_names, vec!["sample_slot".to_string()]);
}

#[test]
fn test_new_tag_annotation_with_invalid_class() {
    let original_annotation = create_sample_image_annotation(Some(Tag {}));
    let eligible_annotation_classes: &[&AnnotationClass] = &[];

    let result = AnnotationImportAnnotation::new_tag_annotation(
        &original_annotation,
        eligible_annotation_classes,
        "sample_slot",
    );

    assert!(result.is_err());
}

fn cheese() -> ImageAnnotation {
    ImageAnnotation {
        name: "Cheese".to_string(),
        polygon: Some(Polygon { paths: vec![vec![point(89094.67, 11924.8)]] }),
        ..ImageAnnotation::default()
    }
}

#[test]
fn polygon_import_of_an_exported_annotation() {
    let original = cheese();
    let class = create_sample_annotation_class("Cheese", 42);
    let path = original.polygon.clone().unwrap().paths[0].clone();
    let a = AnnotationImportAnnotation::new_polygon_annotation(&original, path, &[&class], "slot-1")
        .unwrap();
    assert_eq!(a.annotation_class_id, 42);
    assert_eq!(a.data.polygon.unwrap().path, vec![point(89094.67, 11924.8)]);
    assert!(a.data.tag.is_none());
    assert_eq!(a.context_keys.slot_names, vec!["slot-1".to_string()]);
    assert!(is_uuid_v4(&a.id));
}

#[test]
fn two_imports_get_different_ids() {
    let original = cheese();
    let class = create_sample_annotation_class("Cheese", 42);
    let a = AnnotationImportAnnotation::new_tag_annotation(&original, &[&class], "s").unwrap();
    let b = AnnotationImportAnnotation::new_tag_annotation(&original, &[&class], "s").unwrap();
    assert_ne!(a.id, b.id);
}

#[test]
fn polygon_import_without_classes_is_a_resolution_error() {
    let original = cheese();
    let r = AnnotationImportAnnotation::new_polygon_annotation(
        &original,
        vec![point(89094.67, 11924.8)],
        &[],
        "slot-1",
    );
    assert_eq!(r, Err(ImportError::NoMatchingClass("Cheese".to_string())));
}

#[test]
fn polygon_import_with_a_class_without_id_is_a_missing_id_error() {
    let original = cheese();
    let class = AnnotationClass { name: Some("Cheese".to_string()), id: None, ..AnnotationClass::default() };
    let r = AnnotationImportAnnotation::new_polygon_annotation(
        &original,
        vec![point(89094.67, 11924.8)],
        &[&class],
        "slot-1",
    );
    assert_eq!(r, Err(ImportError::MissingClassId("Cheese".to_string())));
    assert_ne!(r, Err(ImportError::NoMatchingClass("Cheese".to_string())));
}

#[test]
fn class_lookup_takes_the_first_exact_match() {
    let unnamed = AnnotationClass { id: Some(7), ..AnnotationClass::default() };
    let other_case = create_sample_annotation_class("cheese", 8);
    let first = create_sample_annotation_class("Cheese", 9);
    let second = create_sample_annotation_class("Cheese", 10);
    let classes = [&unnamed, &other_case, &first, &second];
    assert_eq!(AnnotationImportAnnotation::find_annotation_class_id(&classes, "Cheese"), Ok(9));
    assert_eq!(AnnotationImportAnnotation::find_annotation_class_id(&classes, "cheese"), Ok(8));
    assert_eq!(
        AnnotationImportAnnotation::find_annotation_class_id(&classes, "Brie"),
        Err(ImportError::NoMatchingClass("Brie".to_string()))
    );
}

#[test]
fn first_match_without_id_is_an_error_even_when_a_later_one_has_an_id() {
    let first = AnnotationClass { name: Some("Cheese".to_string()), ..AnnotationClass::default() };
    let second = create_sample_annotation_class("Cheese", 10);
    assert_eq!(
        AnnotationImportAnnotation::find_annotation_class_id(&[&first, &second], "Cheese"),
        Err(ImportError::MissingClassId("Cheese".to_string()))
    );
}

#[test]
fn import_with_a_given_id_keeps_it() {
    let original = ImageAnnotation { name: "Cheese".to_string(), tag: Some(Tag {}), ..ImageAnnotation::default() };
    let class = create_sample_annotation_class("Cheese", 3);
    let a = AnnotationImportAnnotation::tag_annotation_with_id(
        "fixed-id".to_string(),
        &original,
        &[&class],
        "slot",
    )
    .unwrap();
    assert_eq!(a.id, "fixed-id");
    assert_eq!(a.data.tag, Some(Tag {}));
    assert!(a.data.polygon.is_none());
    let p = AnnotationImportAnnotation::polygon_annotation_with_id(
        "other-id".to_string(),
        &original,
        vec![point(1.5, -2.0)],
        &[&class],
        "slot",
    )
    .unwrap();
    assert_eq!(p.id, "other-id");
    assert_eq!(p.annotation_class_id, 3);
    assert_eq!(p.data.polygon.unwrap().path, vec![point(1.5, -2.0)]);
}

#[test]
fn polygon_data_from_a_path() {
    let d = AnnotationImportData::from(vec![point(1.0, 2.0), point(3.0, 4.0)]);
    assert_eq!(d.polygon.unwrap().path, vec![point(1.0, 2.0), point(3.0, 4.0)]);
    assert!(d.tag.is_none());
}
