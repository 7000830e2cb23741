//! What the library knows of the platform's REST interface.
use crate::text::same_text;
use vstd::prelude::*;

verus! {

/// Which revision of the platform's REST interface a client speaks.
#[derive(Debug, Default, Clone, Copy, PartialEq, Eq)]
pub enum ApiVersion {
    #[default]
    V1,
    V2,
}

/// A text that names no interface revision.
#[derive(Debug, Clone, PartialEq, Eq)]
pub struct InvalidApiVersion(pub String);

impl ApiVersion {
    /// The revision that `version` names: exactly `v1` or `v2`.
    pub fn try_from(version: &str) -> (r: Result<Self, InvalidApiVersion>)
        ensures
            version@ == "v1"@ ==> r == Ok::<ApiVersion, InvalidApiVersion>(ApiVersion::V1),
            version@ == "v2"@ ==> r == Ok::<ApiVersion, InvalidApiVersion>(ApiVersion::V2),
            version@ != "v1"@ && version@ != "v2"@ ==> (r matches Err(InvalidApiVersion(t))
                && t@ == version@),
    {
        proof {
            reveal_strlit("v1");
            reveal_strlit("v2");
            assert("v1"@[1] != "v2"@[1]);
        }
        if same_text(version, "v1") {
            Ok(ApiVersion::V1)
        } else if same_text(version, "v2") {
            Ok(ApiVersion::V2)
        } else {
            Err(InvalidApiVersion(String::from_str(version)))
        }
    }
}

} // verus!
