//! The configuration endpoints: where each request goes, and what the answer
//! to it means.

use crate::decimal::{decimal_text, write_decimal};
use crate::model::{CreateConfigResult, UploadFlagResponse};
use crate::status::{is_status_code, is_success, status_is_success, status_line, status_text};
use crate::text::{contains_text, occurs_in};
use vstd::prelude::*;
use vstd::string::{StringExecFns, StringSliceAdditionalSpecFns};

verus! {

/// The address under which the API serves the configurations of all
/// universes.
pub open spec fn configurations_root() -> Seq<char> {
    "https://apis.roblox.com/universe-configs-web-api/v1/configurations/universes/"@
}

/// The address under which the API serves the drafts of all universes.
pub open spec fn drafts_root() -> Seq<char> {
    "https://apis.roblox.com/universe-configs-web-api/v1/draft/universes/"@
}

/// A result that can be classified: one that reports an error says which.
pub open spec fn result_is_complete(result: CreateConfigResult) -> bool {
    result.is_error ==> result.error is Some
}

/// What a result means for a change whose failures are reported as
/// `failure` followed by the error code.
pub open spec fn result_outcome(result: CreateConfigResult, failure: Seq<char>) -> Result<
    (),
    Seq<char>,
> {
    if result.is_error {
        Err(failure + result.error->0.error_code@)
    } else {
        Ok(())
    }
}

/// The text of an outcome.
pub open spec fn outcome_view(outcome: Result<(), String>) -> Result<(), Seq<char>> {
    match outcome {
        Ok(()) => Ok(()),
        Err(message) => Err(message@),
    }
}

/// What the answer to discarding the draft means: the error that the result
/// reports, else the lack of a draft, else success.
pub open spec fn discard_outcome(result: CreateConfigResult) -> Result<(), Seq<char>> {
    if result.is_error {
        Err("Failed to discard draft: "@ + result.error->0.error_code@)
    } else if result.data is Some && result.data->0.draft_hash@.len() == 0 {
        Err("Failed to discard draft: No draft is present"@)
    } else {
        Ok(())
    }
}

/// What the answer to publishing the draft means, given the line that names
/// its status.
pub open spec fn publish_outcome(status: u16, line: Seq<char>, body: Seq<u8>) -> Result<
    (),
    Seq<char>,
> {
    if occurs_in(body, "DraftNotFound".spec_bytes()) {
        Err("Failed to publish draft: No draft is present"@)
    } else if !is_success(status) {
        Err("Failed to publish draft: HTTP "@ + line)
    } else {
        Ok(())
    }
}

fn joined(head: &str, tail: &str) -> (r: String)
    ensures
        r@ == head@ + tail@,
{
    let mut r = String::from_str(head);
    r.append(tail);
    r
}

fn classify(result: &CreateConfigResult, failure: &str) -> (r: Result<(), String>)
    requires
        result_is_complete(*result),
    ensures
        outcome_view(r) == result_outcome(*result, failure@),
{
    if result.is_error {
        let error = result.error.as_ref().unwrap();
        Err(joined(failure, error.error_code.as_str()))
    } else {
        Ok(())
    }
}

/// The address of the latest configuration of a universe.
pub fn get_config_url(universe_id: u64) -> (r: String)
    ensures
        r@ == configurations_root() + decimal_text(universe_id as nat) + "/latest"@,
{
    let mut r = String::from_str(
        "https://apis.roblox.com/universe-configs-web-api/v1/configurations/universes/",
    );
    let id = write_decimal(universe_id);
    r.append(id.as_str());
    r.append("/latest");
    r
}

/// The address of the draft of a universe: entries are put and posted to it,
/// and deleting it discards the draft.
pub fn draft_url(universe_id: u64) -> (r: String)
    ensures
        r@ == drafts_root() + decimal_text(universe_id as nat),
{
    let mut r = String::from_str(
        "https://apis.roblox.com/universe-configs-web-api/v1/draft/universes/",
    );
    let id = write_decimal(universe_id);
    r.append(id.as_str());
    r
}

/// The address to which the draft of a universe is published.
pub fn publish_draft_url(universe_id: u64) -> (r: String)
    ensures
        r@ == drafts_root() + decimal_text(universe_id as nat) + "/publish"@,
{
    let mut r = draft_url(universe_id);
    r.append("/publish");
    r
}

/// Reads the answer to discarding the draft.
pub fn discard_draft(resp: &UploadFlagResponse) -> (r: Result<(), String>)
    requires
        resp.discard_staged_result is Some,
        result_is_complete(resp.discard_staged_result->0),
    ensures
        outcome_view(r) == discard_outcome(resp.discard_staged_result->0),
{
    let result = resp.discard_staged_result.as_ref().unwrap();
    if result.is_error {
        return classify(result, "Failed to discard draft: ");
    }
    if let Some(data) = &result.data {
        if data.draft_hash.as_str().is_empty() {
            return Err(String::from_str("Failed to discard draft: No draft is present"));
        }
    }
    Ok(())
}

/// Reads the answer to publishing the draft, given the line that names its
/// status.
pub fn publish_result(status: u16, line: &str, text: &str) -> (r: Result<(), String>)
    ensures
        outcome_view(r) == publish_outcome(status, line@, text.spec_bytes()),
{
    if contains_text(text, "DraftNotFound") {
        return Err(String::from_str("Failed to publish draft: No draft is present"));
    }
    if !status_is_success(status) {
        return Err(joined("Failed to publish draft: HTTP ", line));
    }
    Ok(())
}

/// Reads the answer to publishing the draft: the status and the body text.
pub fn publish_draft(status: u16, text: &str) -> (r: Result<(), String>)
    requires
        is_status_code(status),
    ensures
        outcome_view(r) == publish_outcome(status, status_line(status), text.spec_bytes()),
{
    let line = status_text(status);
    publish_result(status, line.as_str(), text)
}

/// Reads the answer to updating an entry of the draft.
pub fn update_flag(resp: &UploadFlagResponse) -> (r: Result<(), String>)
    requires
        resp.update_config_result is Some,
        result_is_complete(resp.update_config_result->0),
    ensures
        outcome_view(r) == result_outcome(
            resp.update_config_result->0,
            "Failed to upload flag: "@,
        ),
{
    let result = resp.update_config_result.as_ref().unwrap();
    classify(result, "Failed to upload flag: ")
}

/// Reads the answer to adding an entry to the draft.
pub fn upload_flag(resp: &UploadFlagResponse) -> (r: Result<(), String>)
    requires
        resp.create_config_result is Some,
        result_is_complete(resp.create_config_result->0),
    ensures
        outcome_view(r) == result_outcome(
            resp.create_config_result->0,
            "Failed to upload flag: "@,
        ),
{
    let result = resp.create_config_result.as_ref().unwrap();
    classify(result, "Failed to upload flag: ")
}

} // verus!
