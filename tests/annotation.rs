use darwin_v7::annotation::{AnnotationError, AnnotationType, Polygon, Text};

#[test]
fn annotation_type_from_its_name_in_any_case() {
    assert_eq!(AnnotationType::try_from("Polygon"), Ok(AnnotationType::Polygon(Polygon { paths: vec![] })));
    assert_eq!(AnnotationType::try_from("TAG").unwrap().name(), "tag");
    assert_eq!(AnnotationType::try_from("line"), Ok(AnnotationType::Line));
    assert_eq!(AnnotationType::try_from("text"), Ok(AnnotationType::Text(Text { text: String::new() })));
    assert_eq!(AnnotationType::try_from("Bounding_Box").unwrap().name(), "bounding_box");
}

#[test]
fn unknown_annotation_type_is_an_error_naming_it() {
    assert_eq!(
        AnnotationType::try_from("Blob"),
        Err(AnnotationError::InvalidAnnotationType("Blob".to_string()))
    );
    assert!(AnnotationType::try_from("raster_layer").is_err());
    assert!(AnnotationType::try_from("").is_err());
}

#[test]
fn annotation_codes_follow_the_table() {
    let code = |n: &str| AnnotationType::try_from(n).unwrap().code();
    assert_eq!(code("tag"), Ok(1));
    assert_eq!(code("bounding_box"), Ok(2));
    assert_eq!(code("polygon"), Ok(3));
    assert_eq!(code("attributes"), Ok(5));
    assert_eq!(code("text"), Ok(6));
    assert_eq!(code("line"), Ok(11));
    assert_eq!(code("skeleton"), Ok(12));
}

#[test]
fn kinds_without_a_code_are_an_error() {
    assert_eq!(
        AnnotationType::Cuboid.code(),
        Err(AnnotationError::UnassignedCode("cuboid".to_string()))
    );
    for n in ["auto_annotate", "directional_vector", "ellipse", "inference", "instance_id", "keypoint", "measures"] {
        assert_eq!(
            AnnotationType::try_from(n).unwrap().code(),
            Err(AnnotationError::UnassignedCode(n.to_string()))
        );
    }
    assert!(AnnotationType::RasterLayer.code().is_err());
}

#[test]
fn lowercase_names_are_matched_exactly() {
    assert_eq!(AnnotationType::from_lowercase_name("skeleton"), Some(AnnotationType::Skeleton));
    assert_eq!(AnnotationType::from_lowercase_name("Skeleton"), None);
    assert_eq!(AnnotationType::from_lowercase_name("skeleton "), None);
    assert_eq!(AnnotationType::from_lowercase_name("raster_layer"), None);
}
