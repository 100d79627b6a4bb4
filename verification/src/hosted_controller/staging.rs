//! Identifiers of the staging stage's records.
pub mod runtime;
pub mod baseline;
pub mod evidence;
pub mod callbacks;
pub mod collection;
pub mod progress;
pub mod admission;

use vstd::prelude::*;

verus! {

/// The artifact of kind `kind` recorded for a staging execution.
pub fn artifact_id(kind: &str, execution: &str) -> (r: String)
    ensures
        r@ == "staging_"@ + kind@ + "_"@ + execution@,
{
    String::from_str("staging_").concat(kind).concat("_").concat(execution)
}

} // verus!
