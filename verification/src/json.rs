//! JSON values that user records carry without inspecting them.

use vstd::prelude::*;

verus! {

/// An arbitrary JSON value (`serde_json::Value`), carried as is.
#[verifier::external_type_specification]
#[verifier::external_body]
pub struct ExJsonValue(serde_json::Value);

} // verus!
