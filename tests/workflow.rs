use darwin_v7::workflow::StageType;

#[test]
fn test_display_stage_type() {
    assert_eq!(StageType::Annotate.to_string(), "Annotate");
    assert_eq!(StageType::Complete.to_string(), "Complete");
    assert_eq!(StageType::Consensus.to_string(), "Consensus");
    assert_eq!(StageType::Model.to_string(), "Model");
    assert_eq!(StageType::New.to_string(), "New");
    assert_eq!(StageType::Review.to_string(), "Review");
}

#[test]
fn stage_type_names_of_the_other_stages() {
    assert_eq!(StageType::Dataset.to_string(), "Dataset");
    assert_eq!(StageType::Discard.to_string(), "Discard");
    assert_eq!(StageType::default(), StageType::Annotate);
}
