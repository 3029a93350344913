//! The messages of the visualizer's remote interface, as plain values.

use vstd::prelude::*;

verus! {

/// The paths of a field mask.
#[derive(Debug, Clone, PartialEq, Eq)]
pub struct FieldMask {
    pub paths: Vec<String>,
}

/// A class diagram request as it arrives: source files by path, and an
/// optional mask of wanted diagram kinds.
#[derive(Debug, Clone, PartialEq, Eq)]
pub struct VisualizeContractsRequest {
    pub sources: Vec<(String, String)>,
    pub output_mask: Option<FieldMask>,
}

/// A storage layout request as it arrives.
#[derive(Debug, Clone, PartialEq, Eq)]
pub struct VisualizeStorageRequest {
    pub sources: Vec<(String, String)>,
    pub file_name: String,
    pub contract_name: String,
    pub output_mask: Option<FieldMask>,
}

/// A response as it is sent: the diagrams that were drawn.
#[derive(Debug, Clone, PartialEq, Eq)]
pub struct VisualizeResponse {
    pub png: Option<Vec<u8>>,
    pub svg: Option<Vec<u8>>,
}

} // verus!
