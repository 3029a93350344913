//! The requests and responses of the UML service.

use vstd::prelude::*;

verus! {

/// A request for the class diagram of some contracts: the source files by
/// relative path.
#[derive(Debug, Clone, PartialEq, Eq)]
pub struct SolToUmlRequest {
    pub sources: Vec<(String, String)>,
}

/// The class diagram, as SVG text.
#[derive(Debug, Clone, PartialEq, Eq)]
pub struct SolToUmlResponse {
    pub uml_diagram: String,
}

/// A request for the storage layout of the contract `main_contract`, found
/// in the file `main_contract_filename` among the source files.
#[derive(Debug, Clone, PartialEq, Eq)]
pub struct SolToStorageRequest {
    pub sources: Vec<(String, String)>,
    pub main_contract: String,
    pub main_contract_filename: String,
}

/// The storage layout, as SVG text.
#[derive(Debug, Clone, PartialEq, Eq)]
pub struct SolToStorageResponse {
    pub storage: String,
}

} // verus!
