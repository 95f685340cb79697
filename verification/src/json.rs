//! Opaque JSON values carried through the library.

use vstd::prelude::*;

verus! {

/// `serde_json::Value` is carried through the library (tool parameters,
/// output schemas) without the library ever looking inside it.
#[verifier::external_type_specification]
#[verifier::external_body]
pub struct ExJsonValue(serde_json::Value);

/// `<serde_json::Value as Clone>::clone`, derived by serde_json, returns a
/// structurally identical value.
pub assume_specification[ <serde_json::Value as Clone>::clone ](v: &serde_json::Value) -> (r: serde_json::Value)
    ensures
        r == *v,
;

} // verus!
