use drtools::batch::{derive_batch_status, summarize_batch_task_items, BatchTaskStats};
use drtools::error::ErrorKind;
use drtools::models::{AppSettingsPatch, DownloadBatchCompletion, DownloadBatchTaskItem, TokenValidationResult};
use drtools::notify::{apple_script_string, notify_download_batch_completed, platform_label, xml_escape};
use drtools::python::{check_python_response, next_request_id, LineOutcome, ResponseScan};
use drtools::queue::{download_concurrency_from_setting, DownloadQueueManager, QueuedDownloadTask};
use drtools::scheduler::{
    decide_recording_start, recording_concurrency_from_setting, recorder_exit_failure, recording_room_id,
    ActiveRecordingJob, RecordingSchedulerState, StartDecision,
};
use drtools::settings::{
    parse_bool, persist_token_validation_writes, settings_update_plan, token_validation_cookie, MetaWrite,
    SettingKey,
};

fn empty_patch() -> AppSettingsPatch {
    AppSettingsPatch {
        theme_mode: None,
        liquid_glass_style: None,
        accent_color: None,
        locale: None,
        export_dir: None,
        max_concurrent_downloads: None,
        download_notifications_enabled: None,
        douyin_cookie: None,
        tiktok_cookie: None,
        auto_check_updates: None,
    }
}

fn pairs(w: &[MetaWrite]) -> Vec<(SettingKey, String)> {
    w.iter().map(|m| (m.key, m.value.clone())).collect()
}

#[test]
fn settings_change_writes_trimmed_values_in_order() {
    let mut p = empty_patch();
    p.theme_mode = Some(" dark ".to_string());
    p.max_concurrent_downloads = Some(5);
    p.download_notifications_enabled = Some(false);
    p.douyin_cookie = Some(" a=1 \n b=2 ".to_string());
    p.tiktok_cookie = Some("  \n ".to_string());
    let plan = settings_update_plan(&p, "2024-05-01T00:00:00Z");
    assert!(plan.error.is_none());
    assert_eq!(
        pairs(&plan.writes),
        vec![
            (SettingKey::ThemeMode, "dark".to_string()),
            (SettingKey::MaxConcurrentDownloads, "5".to_string()),
            (SettingKey::DownloadNotificationsEnabled, "false".to_string()),
            (SettingKey::DouyinCookie, "a=1 b=2".to_string()),
            (SettingKey::DouyinCookieUpdatedAt, "2024-05-01T00:00:00Z".to_string()),
            (SettingKey::DouyinLastCheckedAt, "".to_string()),
            (SettingKey::DouyinLastCheckStatus, "unchecked".to_string()),
            (SettingKey::DouyinLastCheckMessage, "".to_string()),
            (SettingKey::TiktokCookie, "".to_string()),
            (SettingKey::TiktokCookieUpdatedAt, "".to_string()),
            (SettingKey::TiktokLastCheckedAt, "".to_string()),
            (SettingKey::TiktokLastCheckStatus, "not_configured".to_string()),
            (SettingKey::TiktokLastCheckMessage, "".to_string()),
        ]
    );
}

#[test]
fn settings_change_stops_at_the_first_invalid_value() {
    let mut p = empty_patch();
    p.theme_mode = Some("auto".to_string());
    p.accent_color = Some("#12345g".to_string());
    p.locale = Some("fr-FR".to_string());
    let plan = settings_update_plan(&p, "now");
    assert_eq!(pairs(&plan.writes), vec![(SettingKey::ThemeMode, "auto".to_string())]);
    let e = plan.error.unwrap();
    assert_eq!(e.kind(), ErrorKind::Validation);
    assert_eq!(e.detail(), "accentColor must be a hex color like #2f6dff");

    let mut p = empty_patch();
    p.max_concurrent_downloads = Some(9);
    let e = settings_update_plan(&p, "now").error.unwrap();
    assert_eq!(e.detail(), "maxConcurrentDownloads must be between 1 and 8");

    let mut p = empty_patch();
    p.liquid_glass_style = Some("frosted".to_string());
    let e = settings_update_plan(&p, "now").error.unwrap();
    assert_eq!(e.detail(), "liquidGlassStyle must be one of transparent/tinted");

    let mut p = empty_patch();
    p.theme_mode = Some("blue".to_string());
    let e = settings_update_plan(&p, "now").error.unwrap();
    assert_eq!(e.detail(), "themeMode must be one of auto/light/dark");

    let mut p = empty_patch();
    p.locale = Some("fr-FR".to_string());
    let e = settings_update_plan(&p, "now").error.unwrap();
    assert_eq!(e.detail(), "locale must be one of zh-CN/en-US");
}

#[test]
fn switches_read_common_spellings() {
    assert_eq!(parse_bool(" YES "), Some(true));
    assert_eq!(parse_bool("on"), Some(true));
    assert_eq!(parse_bool("0"), Some(false));
    assert_eq!(parse_bool("Off"), Some(false));
    assert_eq!(parse_bool("maybe"), None);
}

#[test]
fn cookie_checks_are_stored_under_their_platform() {
    let r = TokenValidationResult {
        platform: " tiktok ".to_string(),
        checked_at: "t1".to_string(),
        status: "valid".to_string(),
        message: "ok".to_string(),
    };
    let w = persist_token_validation_writes(&r).unwrap();
    assert_eq!(
        pairs(&w),
        vec![
            (SettingKey::TiktokLastCheckedAt, "t1".to_string()),
            (SettingKey::TiktokLastCheckStatus, "valid".to_string()),
            (SettingKey::TiktokLastCheckMessage, "ok".to_string()),
        ]
    );
    let bad = TokenValidationResult { platform: "x".to_string(), checked_at: String::new(), status: String::new(), message: String::new() };
    assert_eq!(persist_token_validation_writes(&bad).unwrap_err().detail(), "platform must be one of douyin/tiktok");
}

#[test]
fn cookie_validation_needs_a_platform_and_a_cookie() {
    assert_eq!(token_validation_cookie("douyin", " a \n b ").unwrap(), "a b");
    assert_eq!(token_validation_cookie("douyin", " \n ").unwrap_err().detail(), "cookie is required");
    assert_eq!(token_validation_cookie("vimeo", "a").unwrap_err().detail(), "platform must be one of douyin/tiktok");
}

fn item(status: &str) -> DownloadBatchTaskItem {
    DownloadBatchTaskItem {
        id: "t".to_string(),
        task_type: "video.download".to_string(),
        status: status.to_string(),
        source_url: None,
        author_name: None,
        author_uid: None,
        created_at: String::new(),
        updated_at: String::new(),
        error_text: None,
    }
}

fn stats(queued: u32, running: u32, success: u32, failed: u32) -> BatchTaskStats {
    BatchTaskStats {
        total_seen: queued + running + success + failed,
        queued_count: queued,
        running_count: running,
        success_count: success,
        failed_count: failed,
    }
}

#[test]
fn batch_counts_follow_task_statuses() {
    let items = vec![item("success"), item("failed"), item("running"), item("queued"), item("other")];
    let s = summarize_batch_task_items(&items, 5);
    assert_eq!((s.total_seen, s.queued_count, s.running_count, s.success_count, s.failed_count), (5, 2, 1, 1, 1));
    let none = summarize_batch_task_items(&Vec::new(), 7);
    assert_eq!(none.total_seen, 7);
}

#[test]
fn batch_status_follows_its_counts() {
    assert_eq!(derive_batch_status(0, stats(0, 0, 0, 0)), "queued");
    assert_eq!(derive_batch_status(3, stats(3, 0, 0, 0)), "queued");
    assert_eq!(derive_batch_status(3, stats(1, 1, 1, 0)), "running");
    assert_eq!(derive_batch_status(3, stats(0, 0, 3, 0)), "success");
    assert_eq!(derive_batch_status(3, stats(0, 0, 0, 3)), "failed");
    assert_eq!(derive_batch_status(3, stats(0, 0, 2, 1)), "partial");
    assert_eq!(derive_batch_status(3, stats(1, 0, 1, 1)), "partial");
    assert_eq!(derive_batch_status(3, stats(2, 0, 1, 0)), "running");
}

#[test]
fn a_batch_whose_tasks_all_ended_alike_shows_that_outcome() {
    let items = vec![item("success"), item("success"), item("success")];
    let s = summarize_batch_task_items(&items, 3);
    assert_eq!(derive_batch_status(3, s), "success");
    let items = vec![item("failed"), item("failed")];
    let s = summarize_batch_task_items(&items, 2);
    assert_eq!(derive_batch_status(2, s), "failed");
}

fn completion(success: u32, failed: u32) -> DownloadBatchCompletion {
    DownloadBatchCompletion {
        batch_id: "b".to_string(),
        platform: "douyin".to_string(),
        total_count: success + failed,
        success_count: success,
        failed_count: failed,
    }
}

#[test]
fn batch_notices_report_the_outcome() {
    let n = notify_download_batch_completed(&completion(0, 4));
    assert_eq!((n.title.as_str(), n.body.as_str()), ("批次下载失败", "抖音 · 全部失败，共 4 条"));
    let n = notify_download_batch_completed(&completion(12, 0));
    assert_eq!((n.title.as_str(), n.body.as_str()), ("批次下载完成", "抖音 · 全部成功，共 12 条"));
    let n = notify_download_batch_completed(&completion(2, 3));
    assert_eq!(n.body, "抖音 · 成功 2 条，失败 3 条，共 5 条");
    assert_eq!(platform_label("tiktok"), "TikTok");
    assert_eq!(platform_label("other"), "other");
}

#[test]
fn notice_text_is_escaped() {
    assert_eq!(apple_script_string("say \"hi\"\\\nnow"), "\"say \\\"hi\\\"\\\\ now\"");
    assert_eq!(xml_escape("a<b & c>d"), "a&lt;b &amp; c&gt;d");
}

#[test]
fn responses_must_answer_their_request() {
    assert!(check_python_response(7, 7, None).is_ok());
    let e = check_python_response(7, 8, None).unwrap_err();
    assert_eq!((e.kind(), e.detail().as_str()), (ErrorKind::TaskExec, "python response id mismatch"));
    let e = check_python_response(7, 7, Some("bad task".to_string())).unwrap_err();
    assert_eq!(e.detail(), "bad task");
    assert_eq!(next_request_id(1), 2);
    assert_eq!(next_request_id(u64::MAX), u64::MAX);
}

#[test]
fn stray_output_lines_end_the_read_at_the_third() {
    let mut scan = ResponseScan::new();
    assert!(matches!(scan.on_line("   ", false, "python"), LineOutcome::Skip));
    assert!(matches!(scan.on_line(" warn 1 ", false, "python"), LineOutcome::Skip));
    assert!(matches!(scan.on_line("warn 2", false, "python"), LineOutcome::Skip));
    match scan.on_line("warn 3", false, "python") {
        LineOutcome::Fail(e) => assert_eq!(e.detail(), "python returned non-JSON stdout: warn 1 | warn 2 | warn 3"),
        _ => panic!("expected a failure"),
    }
    let mut scan = ResponseScan::new();
    assert!(matches!(scan.on_line("{\"id\":1}", true, "python"), LineOutcome::Response));
    assert_eq!(scan.on_closed("python").detail(), "python closed unexpectedly");
    scan.on_line("noise", false, "python");
    assert_eq!(scan.on_closed("python").detail(), "python returned no valid JSON response; ignored stdout: noise");
}

fn job(id: &str) -> QueuedDownloadTask {
    QueuedDownloadTask {
        task_id: id.to_string(),
        batch_id: "b".to_string(),
        platform: "douyin".to_string(),
        source_url: "https://x".to_string(),
        download_cover: false,
        download_music: false,
        download_description: false,
        download_lyric: false,
    }
}

#[test]
fn the_queue_starts_downloads_in_order_within_the_limit() {
    let mut q = DownloadQueueManager::new();
    q.enqueue_batch(vec![job("a"), job("b"), job("c")]);
    assert_eq!(q.pending_len(), 3);
    let started = q.take_ready_jobs(2);
    assert_eq!(started.iter().map(|j| j.task_id.clone()).collect::<Vec<_>>(), vec!["a", "b"]);
    assert_eq!(q.running(), 2);
    assert!(q.next_job(2).is_none());
    q.finish();
    assert_eq!(q.running(), 1);
    assert_eq!(q.next_job(2).unwrap().task_id, "c");
    assert_eq!(q.pending_len(), 0);
    q.finish();
    q.finish();
    q.finish();
    assert_eq!(q.running(), 0);
}

#[test]
fn concurrency_settings_are_read_with_defaults() {
    assert_eq!(download_concurrency_from_setting(None, false), 3);
    assert_eq!(download_concurrency_from_setting(Some(" 6 ".to_string()), false), 6);
    assert_eq!(download_concurrency_from_setting(Some("x".to_string()), false), 3);
    assert_eq!(download_concurrency_from_setting(Some("50".to_string()), false), 3);
    assert_eq!(download_concurrency_from_setting(Some("0".to_string()), false), 3);
    assert_eq!(download_concurrency_from_setting(Some("8".to_string()), false), 8);
    assert_eq!(download_concurrency_from_setting(Some("6".to_string()), true), 1);
    assert_eq!(recording_concurrency_from_setting(None), 3);
    assert_eq!(recording_concurrency_from_setting(Some("20".to_string())), 8);
    assert_eq!(recording_concurrency_from_setting(Some("0".to_string())), 1);
    assert_eq!(recording_concurrency_from_setting(Some(" 5 ".to_string())), 5);
}

#[test]
fn the_scheduler_starts_once_and_tracks_one_recorder_per_account() {
    let mut s = RecordingSchedulerState::new();
    assert!(s.start());
    assert!(!s.start());
    s.insert_job(ActiveRecordingJob { account_id: "a".to_string(), task_id: "t1".to_string() });
    s.insert_job(ActiveRecordingJob { account_id: "b".to_string(), task_id: "t2".to_string() });
    s.insert_job(ActiveRecordingJob { account_id: "a".to_string(), task_id: "t3".to_string() });
    let mut ids = s.active_account_ids();
    ids.sort();
    assert_eq!(ids, vec!["a", "b"]);
    assert_eq!(s.take_job("a").unwrap().task_id, "t3");
    assert!(s.take_job("a").is_none());
    assert!(!s.is_stop_requested());
    let rest = s.request_stop();
    assert_eq!(rest.len(), 1);
    assert!(s.is_stop_requested());
    assert!(s.active_account_ids().is_empty());
}

#[test]
fn only_live_douyin_accounts_set_to_auto_start_get_a_recorder() {
    let mut a = drtools_account();
    assert_eq!(decide_recording_start(&a, "live", 0, 3), StartDecision::Start);
    assert_eq!(decide_recording_start(&a, "live", 3, 3), StartDecision::NoSlot);
    assert_eq!(decide_recording_start(&a, "idle", 0, 3), StartDecision::Skip);
    a.platform = "tiktok".to_string();
    assert_eq!(decide_recording_start(&a, "live", 0, 3), StartDecision::Skip);
    a.platform = "douyin".to_string();
    a.auto_start = false;
    assert_eq!(decide_recording_start(&a, "live", 0, 3), StartDecision::Skip);
}

fn drtools_account() -> drtools::models::RecordingAccountItem {
    drtools::models::RecordingAccountItem {
        id: "acc".to_string(),
        platform: "douyin".to_string(),
        account_input: "https://live.douyin.com/1".to_string(),
        account_name: "Ann".to_string(),
        account_uid: "u1".to_string(),
        account_avatar_url: None,
        account_room_id: Some("room-0".to_string()),
        account_web_rid: None,
        account_sec_user_id: None,
        account_unique_id: None,
        auto_start: true,
        retry_on_disconnect: true,
        split_recording: false,
        save_snapshot: false,
        enabled: true,
        status: "watching".to_string(),
        last_checked_at: None,
        last_recorded_at: None,
        last_error: None,
        created_at: String::new(),
        updated_at: String::new(),
    }
}

#[test]
fn a_recording_uses_the_reported_room_else_the_accounts() {
    assert_eq!(recording_room_id(&Some(" r1 ".to_string()), &Some("r2".to_string())).unwrap(), "r1");
    assert_eq!(recording_room_id(&None, &Some("r2".to_string())).unwrap(), "r2");
    let e = recording_room_id(&Some("  ".to_string()), &Some("r2".to_string())).unwrap_err();
    assert_eq!(e.detail(), "recording requires a valid room id");
    assert!(recording_room_id(&None, &None).is_err());
}

#[test]
fn a_recorder_that_exits_while_running_fails_its_task() {
    assert_eq!(recorder_exit_failure("running", true), Some("recording worker exited before updating task status"));
    assert_eq!(recorder_exit_failure("running", false), Some("recording worker exited unexpectedly"));
    assert_eq!(recorder_exit_failure("success", false), None);
}

#[test]
fn a_finished_download_lets_the_oldest_waiting_one_start() {
    let mut q = DownloadQueueManager::new();
    q.enqueue_batch(vec![job("a"), job("b"), job("c")]);
    assert_eq!(q.take_ready_jobs(2).len(), 2);
    q.finish();
    let next = q.take_ready_jobs(2);
    assert_eq!(next.len(), 1);
    assert_eq!(next[0].task_id, "c");
}

#[test]
fn every_task_of_a_batch_is_counted_once() {
    let items = vec![item("success"), item("failed"), item("running"), item("queued"), item("paused"), item("success")];
    let s = summarize_batch_task_items(&items, 6);
    assert_eq!(s.queued_count + s.running_count + s.success_count + s.failed_count, items.len() as u32);
    assert_eq!((s.success_count, s.queued_count), (2, 2));
}

#[test]
fn the_scheduler_skips_accounts_that_already_record() {
    let active = vec!["a1".to_string(), "a2".to_string()];
    assert!(drtools::scheduler::already_recording(&active, "a2"));
    assert!(!drtools::scheduler::already_recording(&active, "a3"));
    assert_eq!(drtools::scheduler::count_after_start(2, true), 3);
    assert_eq!(drtools::scheduler::count_after_start(2, false), 2);
}

#[test]
fn a_batch_is_complete_once_every_task_is_counted() {
    assert!(drtools::batch::is_batch_complete(3, 2, 1));
    assert!(!drtools::batch::is_batch_complete(3, 1, 1));
    assert!(drtools::batch::is_batch_complete(0, 0, 0));
}
