use vstd::prelude::*;

use crate::batch::ExtractionResult;

verus! {

/// What the service says about itself.
#[derive(Debug)]
pub struct ServerInfo {
    pub version: String,
    pub name: String,
    pub message: String,
}

impl ServerInfo {
    /// The greeting of a service of the given name and version.
    pub fn new(version: String, name: String) -> (r: ServerInfo)
        ensures
            r.version == version,
            r.name == name,
            r.message@ == "Welcome to the textractor API"@,
    {
        let message = "Welcome to the textractor API".to_owned();
        ServerInfo { version, name, message }
    }
}

/// The response to a multi-file request: one entry per uploaded part, in
/// order.
#[derive(Debug)]
pub struct ExtractionResponse {
    pub results: Vec<ExtractionResult>,
}

/// The body of an upload: the raw bytes of one file.
#[derive(Debug)]
pub struct FileUpload {
    pub file: Vec<u8>,
}

} // verus!
