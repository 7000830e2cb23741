use darwin_v7::datasets::{Dataset, DatasetUpdate, ExportFormat};
use darwin_v7::item::{DatasetItemStatus, DatasetItemTypes, InvalidItemStatus, RegisterNewItemOptions};

#[test]
fn item_status_from_text() {
    assert_eq!(DatasetItemStatus::try_from("Complete"), Ok(DatasetItemStatus::Complete));
    assert_eq!(DatasetItemStatus::try_from("new"), Ok(DatasetItemStatus::New));
    assert_eq!(DatasetItemStatus::try_from("UPLOADING"), Ok(DatasetItemStatus::Uploading));
    assert_eq!(
        DatasetItemStatus::try_from("done"),
        Err(InvalidItemStatus("done".to_string()))
    );
}

#[test]
fn item_status_and_type_texts() {
    assert_eq!(DatasetItemStatus::Processing.to_string(), "Processing");
    assert_eq!(DatasetItemTypes::Pdf.to_string(), "PDF");
    assert_eq!(DatasetItemTypes::Dicom.to_string(), "DICOM");
    assert_eq!(DatasetItemTypes::TiledImage.to_string(), "tiled_image");
}

#[test]
fn registration_options_default() {
    let o = RegisterNewItemOptions::default();
    assert!(!o.force_tiling);
    assert!(o.ignore_dicom_layout);
}

#[test]
fn export_format_names() {
    assert_eq!(ExportFormat::DarwinJson2.as_str(), "darwin_json_2");
    assert_eq!(ExportFormat::PascalVoc.as_str(), "pascal_voc");
    assert_eq!(ExportFormat::InstanceMask.as_str(), "instance-mask");
}

#[test]
fn dataset_update_takes_the_changeable_settings() {
    let d = Dataset {
        name: Some("cells".to_string()),
        public: Some(true),
        work_size: Some(30),
        instructions: Some("draw".to_string()),
        num_items: Some(5),
        ..Dataset::default()
    };
    let u = DatasetUpdate::from(&d);
    assert_eq!(u.name.as_deref(), Some("cells"));
    assert_eq!(u.public, Some(true));
    assert_eq!(u.work_size, Some(30));
    assert_eq!(u.instructions.as_deref(), Some("draw"));
    assert_eq!(u.annotation_hotkeys, None);
}

#[test]
fn lowercase_status_names_are_matched_exactly() {
    assert_eq!(DatasetItemStatus::from_lowercase_name("review"), Some(DatasetItemStatus::Review));
    assert_eq!(DatasetItemStatus::from_lowercase_name("Review"), None);
    assert_eq!(DatasetItemStatus::from_lowercase_name(""), None);
}
