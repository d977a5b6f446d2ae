//! What the configuration API answers to a change of the draft, as far as
//! the client reads it.

use vstd::prelude::*;

verus! {

/// The draft that a change left behind.
#[derive(Debug)]
pub struct CreateConfigData {
    pub draft_hash: String,
}

/// Why a change was refused.
#[derive(Debug)]
pub struct CreateConfigError {
    pub error_code: String,
    pub message: String,
}

/// The result of one change: either data or an error.
#[derive(Debug)]
pub struct CreateConfigResult {
    pub is_error: bool,
    pub data: Option<CreateConfigData>,
    pub error: Option<CreateConfigError>,
}

/// The answer to a change of the draft. Each kind of change fills the
/// result of its own.
#[derive(Debug)]
pub struct UploadFlagResponse {
    pub update_config_result: Option<CreateConfigResult>,
    pub discard_staged_result: Option<CreateConfigResult>,
    pub create_config_result: Option<CreateConfigResult>,
}

} // verus!
