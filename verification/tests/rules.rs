use drtools::error::{AppError, ErrorKind};
use drtools::number::{decimal_string, parse_bounded};
use drtools::recording::{
    build_recording_check_message, map_recording_account_status, normalize_cookie, unique_trimmed_ids,
    validate_profile_request, validate_recording_platform,
};
use drtools::models::RecordingLiveStatusResult;
use drtools::submit::{classify_urls, is_supported_download_url, validate_download_platform};
use drtools::text::trim_str;
use drtools::ui::{
    clamp_or_default, frontend_log_line, normalize_window_title, required_id, validate_external_url, window_target,
    DetailWindow,
};

fn strings(v: &[&str]) -> Vec<String> {
    v.iter().map(|s| s.to_string()).collect()
}

fn validation_message(e: &AppError) -> String {
    assert_eq!(e.kind(), ErrorKind::Validation);
    e.detail().clone()
}

#[test]
fn trim_removes_surrounding_white_space() {
    assert_eq!(trim_str("  hello world \n\t"), "hello world");
    assert_eq!(trim_str("   "), "");
    assert_eq!(trim_str(""), "");
}

#[test]
fn decimal_text_round_trips() {
    assert_eq!(decimal_string(0), "0");
    assert_eq!(decimal_string(1234567), "1234567");
    assert_eq!(parse_bounded(&decimal_string(98765), u64::MAX), Some(98765));
    assert_eq!(parse_bounded("42", 41), None);
    assert_eq!(parse_bounded("4x", 100), None);
    assert_eq!(parse_bounded("", 100), None);
    assert_eq!(parse_bounded("18446744073709551615", u64::MAX), Some(u64::MAX));
    assert_eq!(parse_bounded("18446744073709551616", u64::MAX), None);
}

#[test]
fn cookie_lines_are_trimmed_and_joined() {
    assert_eq!(normalize_cookie("  a=1; \n\n b=2 \r\n c=3"), "a=1; b=2 c=3");
    assert_eq!(normalize_cookie(" \n \n"), "");
}

#[test]
fn normalizing_a_cookie_twice_changes_nothing() {
    let once = normalize_cookie(" sid=abc \n\n  uid=7 \n ");
    assert_eq!(normalize_cookie(&once), once);
}

#[test]
fn only_douyin_and_tiktok_are_download_platforms() {
    assert!(validate_download_platform(" douyin ").is_ok());
    assert!(validate_download_platform("tiktok").is_ok());
    let e = validate_download_platform("youtube").unwrap_err();
    assert_eq!(validation_message(&e), "platform must be one of douyin/tiktok");
    assert_eq!(e.code(), "VALIDATION_ERROR");
    assert_eq!(e.message(), "validation error: platform must be one of douyin/tiktok");
    assert!(validate_recording_platform("Douyin").is_err());
}

#[test]
fn supported_links_start_with_http_in_any_case() {
    assert!(is_supported_download_url("  HTTPS://v.douyin.com/abc "));
    assert!(is_supported_download_url("http://x"));
    assert!(!is_supported_download_url("ftp://x"));
    assert!(!is_supported_download_url("www.douyin.com"));
}

#[test]
fn submitted_links_are_accepted_invalid_or_skipped() {
    let urls = strings(&[" https://a ", "", "ftp://b", "https://a", "HTTP://c", "   "]);
    let c = classify_urls(&urls);
    assert_eq!(c.accepted, strings(&["https://a", "HTTP://c"]));
    assert_eq!(c.invalid, strings(&["ftp://b"]));
    assert_eq!(c.skipped, 3);
    assert_eq!(c.accepted.len() + c.invalid.len() + c.skipped as usize, urls.len());
}

#[test]
fn reported_status_maps_to_account_status() {
    assert_eq!(map_recording_account_status("live"), "live");
    assert_eq!(map_recording_account_status("recording"), "recording");
    assert_eq!(map_recording_account_status("error"), "error");
    assert_eq!(map_recording_account_status("offline"), "watching");
}

fn live_result(status: &str, error: Option<&str>) -> RecordingLiveStatusResult {
    RecordingLiveStatusResult {
        platform: "douyin".to_string(),
        status: status.to_string(),
        account_room_id: None,
        account_web_rid: None,
        live_title: None,
        checked_at: "2024-01-01T00:00:00Z".to_string(),
        error_message: error.map(|s| s.to_string()),
    }
}

#[test]
fn check_messages_name_the_account() {
    assert_eq!(build_recording_check_message("Ann", &live_result("live", None)), "Ann 当前正在直播。");
    assert_eq!(build_recording_check_message("Ann", &live_result("recording", None)), "Ann 当前正在录制中。");
    assert_eq!(build_recording_check_message("Ann", &live_result("error", Some("boom"))), "Ann 直播状态异常：boom");
    assert_eq!(build_recording_check_message("Ann", &live_result("error", None)), "Ann 直播状态异常：未知错误");
    assert_eq!(build_recording_check_message("Ann", &live_result("idle", None)), "Ann 当前未开播。");
}

#[test]
fn ids_to_check_are_distinct_trimmed_and_non_blank() {
    let ids = strings(&[" a ", "b", "", "a", "  ", "c", "b "]);
    assert_eq!(unique_trimmed_ids(&ids), strings(&["a", "b", "c"]));
}

#[test]
fn profile_requests_need_an_http_link() {
    let (p, u) = validate_profile_request(" douyin ", " https://live.douyin.com/1 ").unwrap();
    assert_eq!(p, "douyin");
    assert_eq!(u, "https://live.douyin.com/1");
    let e = validate_profile_request("kuaishou", "https://x").unwrap_err();
    assert_eq!(validation_message(&e), "platform must be one of douyin/tiktok");
    let e = validate_profile_request("tiktok", "   ").unwrap_err();
    assert_eq!(validation_message(&e), "sourceUrl is required");
    let e = validate_profile_request("tiktok", "HTTPS://x").unwrap_err();
    assert_eq!(validation_message(&e), "sourceUrl must be an http or https url");
}

#[test]
fn window_titles_fall_back_when_blank() {
    assert_eq!(normalize_window_title("  My Batch ", "Batch Detail"), "My Batch");
    assert_eq!(normalize_window_title("   ", "Batch Detail"), "Batch Detail");
}

#[test]
fn detail_windows_have_labels_routes_and_pages() {
    let t = window_target(DetailWindow::BatchDetail, " b1 ", "").unwrap();
    assert_eq!(t.label, "task-batch-detail");
    assert_eq!(t.title, "Batch Detail");
    assert_eq!(t.route, "#/tasks/batch/b1");
    assert_eq!(t.url, "index.html#/tasks/batch/b1");
    let t = window_target(DetailWindow::RecordingAccountEdit, "acc", "Edit").unwrap();
    assert_eq!(t.label, "record-account-edit-acc");
    assert_eq!(t.route, "#/record/account/acc/edit");
    let t = window_target(DetailWindow::RecordingAccountLogs, "acc", "").unwrap();
    assert_eq!(t.label, "record-account-logs-acc");
    assert_eq!(t.title, "Recording Account Logs");
    assert_eq!(t.url, "index.html#/record/account/acc/logs");
    let t = window_target(DetailWindow::RecordingAccountCreate, "", "").unwrap();
    assert_eq!(t.route, "#/record/account/create");
    assert_eq!(t.title, "Add Recording Account");
    let e = window_target(DetailWindow::TaskDetail, "  ", "x").unwrap_err();
    assert_eq!(validation_message(&e), "task_id is required");
}

#[test]
fn limits_take_defaults_and_stay_in_range() {
    assert_eq!(clamp_or_default(None, 50, 1, 500), 50);
    assert_eq!(clamp_or_default(Some(0), 50, 1, 500), 1);
    assert_eq!(clamp_or_default(Some(9999), 50, 1, 500), 500);
    assert_eq!(clamp_or_default(Some(77), 50, 1, 500), 77);
}

#[test]
fn ids_are_trimmed_or_refused() {
    assert_eq!(required_id("  id-1 ", "x is required").unwrap(), "id-1");
    let e = required_id(" ", "x is required").unwrap_err();
    assert_eq!(validation_message(&e), "x is required");
}

#[test]
fn external_links_must_be_http() {
    assert_eq!(validate_external_url(" https://example.com ").unwrap(), "https://example.com");
    let e = validate_external_url("file:///etc/passwd").unwrap_err();
    assert_eq!(validation_message(&e), "url must start with http:// or https://");
}

#[test]
fn frontend_errors_are_logged_on_one_line() {
    assert_eq!(
        frontend_log_line(" app ", "bad\nthing\r "),
        Some("frontend error scope=app message=bad thing".to_string())
    );
    assert_eq!(frontend_log_line("", "x"), None);
    assert_eq!(frontend_log_line("app", " \n "), None);
}

#[test]
fn an_open_window_is_sent_to_its_route() {
    let script = drtools::ui::window_focus_script("#/tasks/batch/\"x\"").unwrap();
    assert_eq!(
        script,
        "if (window.location.hash !== \"#/tasks/batch/\\\"x\\\"\") { window.location.hash = \"#/tasks/batch/\\\"x\\\"\"; }"
    );
}

#[test]
fn the_ping_answer_gives_its_message_or_pong() {
    assert_eq!(drtools::ui::ping_message("{\"message\":\"hello\"}"), "hello");
    assert_eq!(drtools::ui::ping_message("{\"other\":1}"), "pong");
    assert_eq!(drtools::ui::ping_message("{\"message\":3}"), "pong");
    assert_eq!(drtools::ui::ping_message("not json"), "pong");
}

#[test]
fn every_error_kind_has_its_code_and_prefix() {
    let cases = vec![
        (AppError::Validation("v".to_string()), ErrorKind::Validation, "VALIDATION_ERROR", "validation error: v"),
        (AppError::PythonStart("p".to_string()), ErrorKind::PythonStart, "PYTHON_START_ERROR", "python start error: p"),
        (AppError::TaskExec("t".to_string()), ErrorKind::TaskExec, "TASK_EXEC_ERROR", "task execution error: t"),
        (AppError::Database("d".to_string()), ErrorKind::Database, "DB_ERROR", "database error: d"),
        (AppError::Io("i".to_string()), ErrorKind::Io, "IO_ERROR", "io error: i"),
        (AppError::Json("j".to_string()), ErrorKind::Json, "JSON_ERROR", "json error: j"),
    ];
    for (e, kind, code, message) in cases {
        assert_eq!(e.kind(), kind);
        assert_eq!(e.code(), code);
        assert_eq!(e.message(), message);
    }
}

#[test]
fn a_stored_cookie_is_normalized_for_checks() {
    assert_eq!(drtools::recording_store::cookie_from_setting(Some(" a=1 \n\n b=2 ".to_string())), "a=1 b=2");
    assert_eq!(drtools::recording_store::cookie_from_setting(None), "");
    assert_eq!(drtools::download_store::non_blank(Some("  x ".to_string())), Some("x".to_string()));
    assert_eq!(drtools::download_store::non_blank(Some("   ".to_string())), None);
    assert!(drtools::download_store::notifications_enabled_from(None));
    assert!(!drtools::download_store::notifications_enabled_from(Some(" OFF ".to_string())));
    assert!(drtools::download_store::notifications_enabled_from(Some("maybe".to_string())));
}

#[test]
fn a_link_is_quoted_for_applescript() {
    assert_eq!(
        drtools::ui::open_location_script("https://x/?q=\"a\\b\""),
        "open location \"https://x/?q=\\\"a\\\\b\\\"\""
    );
}

#[test]
fn control_characters_in_a_route_are_escaped_as_json() {
    let script = drtools::ui::window_focus_script("a\u{1}\tb").unwrap();
    assert_eq!(
        script,
        "if (window.location.hash !== \"a\\u0001\\tb\") { window.location.hash = \"a\\u0001\\tb\"; }"
    );
}
