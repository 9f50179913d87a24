//! Why an envelope could not be written as JSON.
use vstd::prelude::*;

verus! {

/// Why an envelope could not be written as JSON.
#[derive(Debug)]
pub enum SerializeError {
    /// The item at this place in the envelope is of a kind that has no
    /// projection. It is the first such item.
    UnsupportedItemKind(usize),
    /// A record could not be written as JSON.
    Json(serde_json::Error),
}

} // verus!
