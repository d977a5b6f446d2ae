use rbx_config::configs::{
    discard_draft, draft_url, get_config_url, publish_draft, publish_draft_url, publish_result,
    update_flag, upload_flag,
};
use rbx_config::decimal::{parse_decimal, write_decimal};
use rbx_config::model::{CreateConfigData, CreateConfigError, CreateConfigResult, UploadFlagResponse};
use rbx_config::pipeline::{layers, Layer, TRANSIENT_RETRIES};
use rbx_config::status::status_is_success;
use rbx_config::text::{contains_text, same_text};

fn ok_result(hash: Option<&str>) -> CreateConfigResult {
    CreateConfigResult {
        is_error: false,
        data: hash.map(|h| CreateConfigData { draft_hash: h.to_string() }),
        error: None,
    }
}

fn error_result(code: &str) -> CreateConfigResult {
    CreateConfigResult {
        is_error: true,
        data: None,
        error: Some(CreateConfigError {
            error_code: code.to_string(),
            message: "refused".to_string(),
        }),
    }
}

fn response(
    update: Option<CreateConfigResult>,
    discard: Option<CreateConfigResult>,
    create: Option<CreateConfigResult>,
) -> UploadFlagResponse {
    UploadFlagResponse {
        update_config_result: update,
        discard_staged_result: discard,
        create_config_result: create,
    }
}

#[test]
fn urls_name_the_universe() {
    assert_eq!(
        get_config_url(42),
        "https://apis.roblox.com/universe-configs-web-api/v1/configurations/universes/42/latest"
    );
    assert_eq!(
        draft_url(42),
        "https://apis.roblox.com/universe-configs-web-api/v1/draft/universes/42"
    );
    assert_eq!(
        publish_draft_url(42),
        "https://apis.roblox.com/universe-configs-web-api/v1/draft/universes/42/publish"
    );
}

#[test]
fn urls_of_the_extreme_universes() {
    assert_eq!(
        draft_url(0),
        "https://apis.roblox.com/universe-configs-web-api/v1/draft/universes/0"
    );
    assert_eq!(
        draft_url(u64::MAX),
        "https://apis.roblox.com/universe-configs-web-api/v1/draft/universes/18446744073709551615"
    );
}

#[test]
fn write_decimal_writes_base_ten() {
    assert_eq!(write_decimal(0), "0");
    assert_eq!(write_decimal(9), "9");
    assert_eq!(write_decimal(10), "10");
    assert_eq!(write_decimal(1205), "1205");
    assert_eq!(write_decimal(u64::MAX), "18446744073709551615");
}

#[test]
fn written_numbers_read_back() {
    for n in [0u64, 1, 9, 10, 99, 100, 4096, 1_000_000_007, u64::MAX - 1, u64::MAX] {
        assert_eq!(parse_decimal(write_decimal(n).as_bytes()), Some(n));
        assert_eq!(write_decimal(n), n.to_string());
    }
}

#[test]
fn discard_succeeds_with_a_draft() {
    let resp = response(None, Some(ok_result(Some("abc"))), None);
    assert_eq!(discard_draft(&resp), Ok(()));
}

#[test]
fn discard_succeeds_without_data() {
    let resp = response(None, Some(ok_result(None)), None);
    assert_eq!(discard_draft(&resp), Ok(()));
}

#[test]
fn discard_reports_the_error_code() {
    let resp = response(None, Some(error_result("Locked")), None);
    assert_eq!(discard_draft(&resp), Err("Failed to discard draft: Locked".to_string()));
}

#[test]
fn discard_reports_a_missing_draft() {
    let resp = response(None, Some(ok_result(Some(""))), None);
    assert_eq!(
        discard_draft(&resp),
        Err("Failed to discard draft: No draft is present".to_string())
    );
}

#[test]
fn discard_reads_only_its_own_result() {
    let resp = response(Some(error_result("A")), Some(ok_result(Some("h"))), Some(error_result("B")));
    assert_eq!(discard_draft(&resp), Ok(()));
}

#[test]
fn update_reports_the_error_code() {
    let resp = response(Some(error_result("Conflict")), None, None);
    assert_eq!(update_flag(&resp), Err("Failed to upload flag: Conflict".to_string()));
    let resp = response(Some(ok_result(Some(""))), None, None);
    assert_eq!(update_flag(&resp), Ok(()));
}

#[test]
fn upload_reports_the_error_code() {
    let resp = response(None, None, Some(error_result("TooMany")));
    assert_eq!(upload_flag(&resp), Err("Failed to upload flag: TooMany".to_string()));
    let resp = response(None, None, Some(ok_result(None)));
    assert_eq!(upload_flag(&resp), Ok(()));
}

#[test]
fn publish_succeeds_on_success_status() {
    assert_eq!(publish_draft(200, "{}"), Ok(()));
    assert_eq!(publish_draft(204, ""), Ok(()));
}

#[test]
fn publish_reports_a_missing_draft_before_the_status() {
    let body = "{\"errorCode\":\"DraftNotFound\"}";
    assert_eq!(
        publish_draft(404, body),
        Err("Failed to publish draft: No draft is present".to_string())
    );
    assert_eq!(
        publish_draft(200, body),
        Err("Failed to publish draft: No draft is present".to_string())
    );
}

#[test]
fn publish_reports_the_status_line() {
    assert_eq!(
        publish_draft(500, "oops"),
        Err("Failed to publish draft: HTTP 500 Internal Server Error".to_string())
    );
    assert_eq!(
        publish_draft(429, ""),
        Err("Failed to publish draft: HTTP 429 Too Many Requests".to_string())
    );
    assert_eq!(
        publish_draft(799, ""),
        Err("Failed to publish draft: HTTP 799 <unknown status code>".to_string())
    );
}

#[test]
fn publish_result_uses_the_line_it_is_given() {
    assert_eq!(
        publish_result(503, "503 Busy", "later"),
        Err("Failed to publish draft: HTTP 503 Busy".to_string())
    );
    assert_eq!(publish_result(299, "299 Fine", "later"), Ok(()));
    assert_eq!(
        publish_result(300, "300 Multiple Choices", ""),
        Err("Failed to publish draft: HTTP 300 Multiple Choices".to_string())
    );
    assert_eq!(
        publish_result(199, "199 Early", ""),
        Err("Failed to publish draft: HTTP 199 Early".to_string())
    );
}

#[test]
fn success_is_the_two_hundreds() {
    assert!(!status_is_success(199));
    assert!(status_is_success(200));
    assert!(status_is_success(299));
    assert!(!status_is_success(300));
    assert!(!status_is_success(429));
}

#[test]
fn contains_text_finds_the_pattern_anywhere() {
    assert!(contains_text("DraftNotFound", "DraftNotFound"));
    assert!(contains_text("xxDraftNotFound", "DraftNotFound"));
    assert!(contains_text("DraftNotFoundxx", "DraftNotFound"));
    assert!(contains_text("a DraDraftNotFound b", "DraftNotFound"));
    assert!(!contains_text("DraftNotFoun", "DraftNotFound"));
    assert!(!contains_text("draftnotfound", "DraftNotFound"));
    assert!(!contains_text("", "DraftNotFound"));
    assert!(contains_text("abc", ""));
    assert!(contains_text("", ""));
}

#[test]
fn same_text_compares_whole_strings() {
    assert!(same_text("ETagMismatch", "ETagMismatch"));
    assert!(!same_text("ETagMismatch", "ETagMismatch!"));
    assert!(!same_text("ETagMismatch", "eTagMismatch"));
    assert!(same_text("", ""));
    assert!(!same_text("", "a"));
    assert!(same_text("\u{e9}t\u{e9}", "\u{e9}t\u{e9}"));
}

#[test]
fn layers_stand_in_the_fixed_order() {
    assert_eq!(layers(), vec![Layer::Auth, Layer::RateLimit, Layer::TransientRetry]);
    assert_eq!(TRANSIENT_RETRIES, 5);
}
