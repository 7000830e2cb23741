use darwin_v7::client::{ApiVersion, InvalidApiVersion};

#[test]
fn api_versions_by_name() {
    assert_eq!(ApiVersion::try_from("v1"), Ok(ApiVersion::V1));
    assert_eq!(ApiVersion::try_from("v2"), Ok(ApiVersion::V2));
    assert_eq!(ApiVersion::try_from("V2"), Err(InvalidApiVersion("V2".to_string())));
    assert_eq!(ApiVersion::try_from("v3"), Err(InvalidApiVersion("v3".to_string())));
}
