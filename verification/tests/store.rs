use drtools::database::Db;
use drtools::download_store::{
    download_job_payload, finish_download_job, record_batch_progress, resolve_download_cookie,
    resolve_download_notifications_enabled, resolve_output_dir, stored_output_dir,
};
use drtools::error::ErrorKind;
use drtools::models::{
    AppSettingsPatch, RecordingAccountCreatePayload, RecordingAccountUpdatePayload, RecordingLiveStatusResult,
    TokenValidationResult, VideoDownloadSubmitPayload,
};
use drtools::queue::QueuedDownloadTask;
use drtools::recording_store::{
    finish_account_enable_change, record_manual_check, record_manual_missing_cookie, recording_account_create,
    recording_account_delete, recording_account_detail, recording_account_logs, recording_account_set_enabled,
    recording_account_update, recording_accounts_snapshot, resolve_recording_accounts_to_check,
    resolve_recording_cookie, resolve_scheduler_cookie, start_manual_check, start_scheduler_check, ManualCheckStart,
};
use drtools::rows::read_doc_field;
use drtools::scheduler_store::{begin_recording_run, handle_finished_recorder, recover_stale_recording_runs, STALE_TASK_REASON};
use drtools::settings_store::{load_settings, persist_token_validation, settings_check_update, settings_update};
use drtools::tasks_store::{
    begin_task_run, download_batch_detail, download_batch_list, download_batch_retry, finish_task_run,
    task_batch_details, task_detail, task_list, video_download_submit,
};

fn fresh_db() -> Db {
    let path = format!("/tmp/drtools-test-{}.db", uuid::Uuid::new_v4());
    let mut db = Db::new(path);
    db.init().unwrap();
    db
}

fn empty_patch() -> AppSettingsPatch {
    AppSettingsPatch {
        theme_mode: None,
        liquid_glass_style: None,
        accent_color: None,
        locale: None,
        export_dir: None,
        max_concurrent_downloads: None,
        download_notifications_enabled: None,
        douyin_cookie: None,
        tiktok_cookie: None,
        auto_check_updates: None,
    }
}

#[test]
fn init_twice_keeps_the_store() {
    let mut db = fresh_db();
    db.init().unwrap();
    assert!(task_list(&mut db, None).unwrap().is_empty());
}

#[test]
fn settings_start_from_defaults() {
    let mut db = fresh_db();
    let s = load_settings(&mut db, "/home/me/Downloads").unwrap();
    assert_eq!(s.theme_mode, "auto");
    assert_eq!(s.liquid_glass_style, "transparent");
    assert_eq!(s.accent_color, "#2f6dff");
    assert_eq!(s.locale, "zh-CN");
    assert_eq!(s.export_dir, "/home/me/Downloads");
    assert_eq!(s.max_concurrent_downloads, 3);
    assert!(s.download_notifications_enabled);
    assert_eq!(s.douyin_cookie, "");
    assert_eq!(s.douyin_last_check_status, "not_configured");
    assert_eq!(s.tiktok_last_check_status, "not_configured");
    assert!(s.auto_check_updates);
    assert_eq!(s.last_update_status, None);
}

#[test]
fn settings_read_back_what_an_update_wrote() {
    let mut db = fresh_db();
    let mut p = empty_patch();
    p.theme_mode = Some(" light ".to_string());
    p.accent_color = Some("#ABCDEF".to_string());
    p.locale = Some("en-US".to_string());
    p.export_dir = Some("  /data/out ".to_string());
    p.max_concurrent_downloads = Some(8);
    p.download_notifications_enabled = Some(false);
    p.douyin_cookie = Some(" sid=1 \n uid=2 ".to_string());
    p.auto_check_updates = Some(false);
    let s = settings_update(&mut db, &p, "/dl").unwrap();
    assert_eq!(s.theme_mode, "light");
    assert_eq!(s.accent_color, "#ABCDEF");
    assert_eq!(s.locale, "en-US");
    assert_eq!(s.export_dir, "/data/out");
    assert_eq!(s.max_concurrent_downloads, 8);
    assert!(!s.download_notifications_enabled);
    assert_eq!(s.douyin_cookie, "sid=1 uid=2");
    assert!(s.douyin_cookie_updated_at.is_some());
    assert_eq!(s.douyin_last_check_status, "unchecked");
    assert_eq!(s.douyin_last_checked_at, None);
    assert!(!s.auto_check_updates);
    let again = load_settings(&mut db, "/dl").unwrap();
    assert_eq!(again.theme_mode, "light");
    assert_eq!(again.douyin_cookie, "sid=1 uid=2");
}

#[test]
fn an_invalid_setting_is_refused() {
    let mut db = fresh_db();
    let mut p = empty_patch();
    p.max_concurrent_downloads = Some(0);
    let e = settings_update(&mut db, &p, "/dl").unwrap_err();
    assert_eq!(e.kind(), ErrorKind::Validation);
    assert_eq!(e.detail(), "maxConcurrentDownloads must be between 1 and 8");
    assert_eq!(load_settings(&mut db, "/dl").unwrap().max_concurrent_downloads, 3);
}

#[test]
fn clearing_a_cookie_resets_its_check_state() {
    let mut db = fresh_db();
    let mut p = empty_patch();
    p.tiktok_cookie = Some("tk=1".to_string());
    settings_update(&mut db, &p, "/dl").unwrap();
    let r = TokenValidationResult {
        platform: "tiktok".to_string(),
        checked_at: "2024-02-02T00:00:00Z".to_string(),
        status: "valid".to_string(),
        message: "ok".to_string(),
    };
    persist_token_validation(&mut db, &r).unwrap();
    let s = load_settings(&mut db, "/dl").unwrap();
    assert_eq!(s.tiktok_last_check_status, "valid");
    assert_eq!(s.tiktok_last_checked_at.as_deref(), Some("2024-02-02T00:00:00Z"));
    assert_eq!(s.tiktok_last_check_message.as_deref(), Some("ok"));
    let mut p = empty_patch();
    p.tiktok_cookie = Some("   ".to_string());
    let s = settings_update(&mut db, &p, "/dl").unwrap();
    assert_eq!(s.tiktok_cookie, "");
    assert_eq!(s.tiktok_last_check_status, "not_configured");
    assert_eq!(s.tiktok_last_checked_at, None);
    assert_eq!(s.tiktok_cookie_updated_at, None);
}

#[test]
fn update_checks_report_the_running_version() {
    let mut db = fresh_db();
    let u = settings_check_update(&mut db, "0.3.1").unwrap();
    assert_eq!(u.status, "up-to-date");
    assert_eq!(u.message, "当前已是最新版本");
    assert_eq!(u.current_version, "0.3.1");
    assert_eq!(u.latest_version, "0.3.1");
    let s = load_settings(&mut db, "/dl").unwrap();
    assert_eq!(s.last_update_status.as_deref(), Some("up-to-date"));
    assert_eq!(s.last_update_check_at.as_deref(), Some(u.checked_at.as_str()));
}

fn submit_payload(platform: &str, urls: &[&str]) -> VideoDownloadSubmitPayload {
    VideoDownloadSubmitPayload {
        platform: platform.to_string(),
        urls: urls.iter().map(|s| s.to_string()).collect(),
        download_cover: true,
        download_music: false,
        download_description: true,
        download_lyric: false,
    }
}

#[test]
fn a_download_submission_creates_a_batch_of_queued_tasks() {
    let mut db = fresh_db();
    let submitted = video_download_submit(
        &mut db,
        &submit_payload("douyin", &[" https://v.douyin.com/a ", "nope", "https://v.douyin.com/a", "", "https://v.douyin.com/b"]),
    )
    .unwrap();
    let r = &submitted.result;
    assert_eq!(r.accepted_count, 2);
    assert_eq!(r.created_task_ids.len(), 2);
    assert_eq!(r.invalid_urls, vec!["nope".to_string()]);
    assert_eq!(r.skipped_count, 2);

    let detail = download_batch_detail(&mut db, &format!("  {} ", submitted.batch_id)).unwrap();
    assert_eq!(detail.platform, "douyin");
    assert_eq!(detail.total_count, 2);
    assert_eq!(detail.status, "queued");
    assert_eq!(detail.tasks.len(), 2);
    let urls: Vec<Option<String>> = detail.tasks.iter().map(|t| t.source_url.clone()).collect();
    assert!(urls.contains(&Some("https://v.douyin.com/a".to_string())));
    assert!(urls.contains(&Some("https://v.douyin.com/b".to_string())));

    let t = task_detail(&mut db, &r.created_task_ids[0]).unwrap();
    assert_eq!(t.task_type, "video.download");
    assert_eq!(t.status, "queued");
    assert_eq!(read_doc_field(&t.input_json, "batchId"), Some(submitted.batch_id.clone()));
    assert_eq!(t.logs.len(), 1);
    assert_eq!(t.logs[0].message, "video download task queued");

    let page = download_batch_list(&mut db, Some(0), Some(1000)).unwrap();
    assert_eq!(page.page, 1);
    assert_eq!(page.page_size, 100);
    assert_eq!(page.total, 1);
    assert_eq!(page.items[0].id, submitted.batch_id);

    let details = task_batch_details(&mut db, &r.created_task_ids).unwrap();
    assert_eq!(details.len(), 2);
}

#[test]
fn download_submissions_are_checked() {
    let mut db = fresh_db();
    let e = video_download_submit(&mut db, &submit_payload("bilibili", &["https://x"])).unwrap_err();
    assert_eq!(e.detail(), "platform must be one of douyin/tiktok");
    let many: Vec<String> = (0..101).map(|i| format!("https://x/{}", i)).collect();
    let refs: Vec<&str> = many.iter().map(|s| s.as_str()).collect();
    let e = video_download_submit(&mut db, &submit_payload("tiktok", &refs)).unwrap_err();
    assert_eq!(e.detail(), "video download submission cannot exceed 100 urls");
    let e = video_download_submit(&mut db, &submit_payload("tiktok", &["ftp://x", "  "])).unwrap_err();
    assert_eq!(e.detail(), "video download submission must include at least one valid url");
    assert!(download_batch_list(&mut db, None, None).unwrap().items.is_empty());
}

#[test]
fn a_batch_with_queued_downloads_can_be_retried() {
    let mut db = fresh_db();
    let submitted = video_download_submit(&mut db, &submit_payload("tiktok", &["https://t/1"])).unwrap();
    assert_eq!(download_batch_retry(&mut db, &format!(" {} ", submitted.batch_id)).unwrap(), submitted.batch_id);
    let t = task_detail(&mut db, &submitted.result.created_task_ids[0]).unwrap();
    assert_eq!(t.logs.last().unwrap().message, "video download batch retried");
    assert_eq!(download_batch_retry(&mut db, "  ").unwrap_err().detail(), "batch_id is required");
    assert_eq!(
        download_batch_retry(&mut db, "missing").unwrap_err().detail(),
        "download batch has no retryable queued tasks"
    );
}

#[test]
fn lookups_refuse_blank_and_unknown_ids() {
    let mut db = fresh_db();
    assert_eq!(task_detail(&mut db, " ").unwrap_err().detail(), "task_id is required");
    assert_eq!(task_detail(&mut db, "nope").unwrap_err().detail(), "task not found");
    assert_eq!(download_batch_detail(&mut db, "").unwrap_err().detail(), "batch_id is required");
    assert_eq!(download_batch_detail(&mut db, "nope").unwrap_err().detail(), "download batch not found");
    assert!(task_batch_details(&mut db, &Vec::new()).unwrap().is_empty());
    let ids: Vec<String> = (0..101).map(|i| i.to_string()).collect();
    assert_eq!(
        task_batch_details(&mut db, &ids).unwrap_err().detail(),
        "task_batch_details cannot query more than 100 task ids"
    );
}

#[test]
fn a_task_run_records_its_outcome() {
    let mut db = fresh_db();
    assert_eq!(begin_task_run(&mut db, "  ", "{}").unwrap_err().detail(), "task_type is required");
    let id = begin_task_run(&mut db, "python.ping", "{\"x\":1}").unwrap();
    let resp = finish_task_run(&mut db, id.clone(), Ok("{\"ok\":true}".to_string())).unwrap();
    assert_eq!(resp.task_id, id);
    assert_eq!(resp.status, "success");
    assert_eq!(resp.output.as_deref(), Some("{\"ok\":true}"));
    let t = task_detail(&mut db, &id).unwrap();
    assert_eq!(t.status, "success");
    assert_eq!(t.output_json.as_deref(), Some("{\"ok\":true}"));

    let id2 = begin_task_run(&mut db, "python.ping", "{}").unwrap();
    let resp = finish_task_run(&mut db, id2.clone(), Err("boom".to_string())).unwrap();
    assert_eq!(resp.status, "failed");
    assert_eq!(resp.error.as_deref(), Some("boom"));
    let t = task_detail(&mut db, &id2).unwrap();
    assert_eq!(t.status, "failed");
    assert_eq!(t.error_text.as_deref(), Some("boom"));
    assert_eq!(t.logs.last().unwrap().message, "task failed: boom");
    assert_eq!(task_list(&mut db, Some(1)).unwrap().len(), 1);
    assert_eq!(task_list(&mut db, None).unwrap().len(), 2);
}

fn create_payload(name: &str) -> RecordingAccountCreatePayload {
    RecordingAccountCreatePayload {
        platform: "douyin".to_string(),
        account_input: format!("https://live.douyin.com/{}", name),
        account_name: name.to_string(),
        account_uid: format!("uid-{}", name),
        account_avatar_url: None,
        account_room_id: Some("room-1".to_string()),
        account_web_rid: Some("web-1".to_string()),
        account_sec_user_id: None,
        account_unique_id: None,
        auto_start: true,
        retry_on_disconnect: true,
        split_recording: false,
        save_snapshot: false,
    }
}

#[test]
fn recording_accounts_can_be_added_changed_and_removed() {
    let mut db = fresh_db();
    let a = recording_account_create(&mut db, &create_payload("Ann")).unwrap();
    assert_eq!(a.account_name, "Ann");
    assert!(a.enabled);
    assert_eq!(a.status, "watching");
    let got = recording_account_detail(&mut db, &format!(" {} ", a.id)).unwrap();
    assert_eq!(got.id, a.id);
    assert_eq!(got.account_room_id.as_deref(), Some("room-1"));

    let mut bad = create_payload("Bob");
    bad.account_name = "  ".to_string();
    assert_eq!(recording_account_create(&mut db, &bad).unwrap_err().detail(), "accountName is required");

    let upd = RecordingAccountUpdatePayload {
        account_id: a.id.clone(),
        platform: "douyin".to_string(),
        account_input: "https://live.douyin.com/456".to_string(),
        account_name: "Ann B".to_string(),
        account_uid: "uid-Ann".to_string(),
        account_avatar_url: None,
        account_room_id: None,
        account_web_rid: None,
        account_sec_user_id: None,
        account_unique_id: None,
        auto_start: false,
        retry_on_disconnect: false,
        split_recording: true,
        save_snapshot: true,
    };
    let u = recording_account_update(&mut db, &upd).unwrap();
    assert_eq!(u.account_name, "Ann B");
    assert!(!u.auto_start);

    let id = recording_account_set_enabled(&mut db, &format!("{} ", a.id), false).unwrap();
    assert_eq!(id, a.id);
    let off = finish_account_enable_change(&mut db, &id, false).unwrap();
    assert!(!off.enabled);
    let logs = recording_account_logs(&mut db, &a.id, None).unwrap();
    let messages: Vec<&str> = logs.iter().map(|l| l.message.as_str()).collect();
    assert!(messages.contains(&"录制账号已添加到列表。"));
    assert!(messages.contains(&"录制账号配置已更新。"));
    assert!(messages.contains(&"录制账号已停用。"));

    let snap = recording_accounts_snapshot(&mut db, None, None).unwrap();
    assert_eq!(snap.accounts.len(), 1);
    assert_eq!(snap.logs.len(), 3);

    recording_account_delete(&mut db, &a.id).unwrap();
    assert_eq!(recording_account_detail(&mut db, &a.id).unwrap_err().detail(), "recording account not found");
    assert_eq!(recording_account_delete(&mut db, " ").unwrap_err().detail(), "account_id is required");
    assert_eq!(recording_account_logs(&mut db, "", Some(5)).unwrap_err().detail(), "account_id is required");
}

#[test]
fn an_account_is_added_once_per_link() {
    let mut db = fresh_db();
    recording_account_create(&mut db, &create_payload("Ann")).unwrap();
    let mut again = create_payload("Other");
    again.account_input = "  HTTPS://live.douyin.com/Ann ".to_string();
    let e = recording_account_create(&mut db, &again).unwrap_err();
    assert_eq!((e.kind(), e.detail().as_str()), (ErrorKind::Validation, "recording account already exists"));
}

#[test]
fn the_accounts_a_check_covers() {
    let mut db = fresh_db();
    let a = recording_account_create(&mut db, &create_payload("A")).unwrap();
    let b = recording_account_create(&mut db, &create_payload("B")).unwrap();
    recording_account_set_enabled(&mut db, &b.id, false).unwrap();
    let enabled = resolve_recording_accounts_to_check(&mut db, &None).unwrap();
    assert_eq!(enabled.len(), 1);
    assert_eq!(enabled[0].id, a.id);
    assert_eq!(resolve_recording_accounts_to_check(&mut db, &Some(Vec::new())).unwrap().len(), 1);
    let ids = vec![format!(" {} ", b.id), a.id.clone(), b.id.clone(), "unknown".to_string(), " ".to_string()];
    let chosen = resolve_recording_accounts_to_check(&mut db, &Some(ids)).unwrap();
    assert_eq!(chosen.iter().map(|x| x.id.clone()).collect::<Vec<_>>(), vec![b.id.clone(), a.id.clone()]);
}

#[test]
fn checks_record_their_outcome_on_the_account() {
    let mut db = fresh_db();
    let a = recording_account_create(&mut db, &create_payload("Ann")).unwrap();
    record_manual_missing_cookie(&mut db, &a, "2024-03-03T00:00:00Z").unwrap();
    let after = recording_account_detail(&mut db, &a.id).unwrap();
    assert_eq!(after.status, "error");
    assert_eq!(after.last_error.as_deref(), Some("cookie is required for live status check"));

    let live = RecordingLiveStatusResult {
        platform: "douyin".to_string(),
        status: "live".to_string(),
        account_room_id: Some("room-9".to_string()),
        account_web_rid: None,
        live_title: None,
        checked_at: "2024-03-03T00:01:00Z".to_string(),
        error_message: None,
    };
    record_manual_check(&mut db, &after, "ignored", &Ok(live)).unwrap();
    let now_live = recording_account_detail(&mut db, &a.id).unwrap();
    assert_eq!(now_live.status, "live");
    assert_eq!(now_live.account_room_id.as_deref(), Some("room-9"));
    assert_eq!(now_live.account_web_rid.as_deref(), Some("web-1"));
    assert_eq!(now_live.last_error, None);

    record_manual_check(&mut db, &now_live, "2024-03-03T00:02:00Z", &Err("timeout".to_string())).unwrap();
    let failed = recording_account_detail(&mut db, &a.id).unwrap();
    assert_eq!(failed.status, "error");
    assert_eq!(failed.last_error.as_deref(), Some("timeout"));
    let logs = recording_account_logs(&mut db, &a.id, None).unwrap();
    let messages: Vec<&str> = logs.iter().map(|l| l.message.as_str()).collect();
    assert!(messages.contains(&"Ann 当前正在直播。"));
    assert!(messages.contains(&"Ann 直播状态检测失败：timeout"));
}

#[test]
fn cookies_for_checks_and_downloads_come_from_settings() {
    let mut db = fresh_db();
    assert_eq!(resolve_recording_cookie(&mut db, "douyin"), "");
    assert_eq!(resolve_download_cookie(&mut db, "douyin"), None);
    let mut p = empty_patch();
    p.douyin_cookie = Some(" d=1 \n e=2 ".to_string());
    p.tiktok_cookie = Some("t=1".to_string());
    p.export_dir = Some("  /videos ".to_string());
    p.download_notifications_enabled = Some(false);
    settings_update(&mut db, &p, "/dl").unwrap();
    assert_eq!(resolve_recording_cookie(&mut db, "douyin"), "d=1 e=2");
    assert_eq!(resolve_recording_cookie(&mut db, "anything"), "t=1");
    assert_eq!(resolve_scheduler_cookie(&mut db, "douyin"), "d=1 e=2");
    assert_eq!(resolve_scheduler_cookie(&mut db, "tiktok"), "");
    assert_eq!(resolve_download_cookie(&mut db, "tiktok").as_deref(), Some("t=1"));
    assert_eq!(resolve_download_cookie(&mut db, "youtube"), None);
    assert_eq!(stored_output_dir(&mut db).as_deref(), Some("/videos"));
    assert!(!resolve_download_notifications_enabled(&mut db));
}

fn download_job(task_id: &str) -> QueuedDownloadTask {
    QueuedDownloadTask {
        task_id: task_id.to_string(),
        batch_id: "b1".to_string(),
        platform: "douyin".to_string(),
        source_url: "https://v/1".to_string(),
        download_cover: true,
        download_music: false,
        download_description: false,
        download_lyric: true,
    }
}

#[test]
fn a_download_payload_carries_the_job() {
    let payload = download_job_payload(&download_job("t-1"), "/out", &Some("c=1".to_string()));
    let doc = Some(payload.clone());
    assert_eq!(read_doc_field(&doc, "taskId").as_deref(), Some("t-1"));
    assert_eq!(read_doc_field(&doc, "outputDir").as_deref(), Some("/out"));
    assert_eq!(read_doc_field(&doc, "cookie").as_deref(), Some("c=1"));
    assert_eq!(read_doc_field(&doc, "sourceUrl").as_deref(), Some("https://v/1"));
    let v: serde_json::Value = serde_json::from_str(&payload).unwrap();
    assert_eq!(v["downloadCover"], serde_json::Value::Bool(true));
    assert_eq!(v["downloadMusic"], serde_json::Value::Bool(false));
    let none = download_job_payload(&download_job("t-2"), "/out", &None);
    let v: serde_json::Value = serde_json::from_str(&none).unwrap();
    assert!(v["cookie"].is_null());
}

#[test]
fn a_finished_download_is_recorded() {
    let mut db = fresh_db();
    let id = begin_task_run(&mut db, "video.download", "{}").unwrap();
    assert_eq!(finish_download_job(&mut db, &id, &Err("net down".to_string())), "video download task failed: net down");
    let t = task_detail(&mut db, &id).unwrap();
    assert_eq!(t.status, "failed");
    assert_eq!(t.error_text.as_deref(), Some("net down"));
    let id2 = begin_task_run(&mut db, "video.download", "{}").unwrap();
    assert_eq!(finish_download_job(&mut db, &id2, &Ok("{}".to_string())), "video download task success");
    assert_eq!(task_detail(&mut db, &id2).unwrap().status, "success");
}

#[test]
fn a_recording_run_starts_and_recovers() {
    let mut db = fresh_db();
    let a = recording_account_create(&mut db, &create_payload("Ann")).unwrap();
    let live = RecordingLiveStatusResult {
        platform: "douyin".to_string(),
        status: "live".to_string(),
        account_room_id: None,
        account_web_rid: Some("web-7".to_string()),
        live_title: None,
        checked_at: "2024-03-03T00:01:00Z".to_string(),
        error_message: None,
    };
    let run = begin_recording_run(&mut db, &a, &live).unwrap();
    assert_eq!(run.task_id.len(), 36);
    let t = task_detail(&mut db, &run.task_id).unwrap();
    assert_eq!(t.task_type, "recording.live");
    assert_eq!(t.status, "running");
    assert_eq!(read_doc_field(&t.input_json, "accountId"), Some(a.id.clone()));
    assert_eq!(read_doc_field(&t.input_json, "accountRoomId").as_deref(), Some("room-1"));
    assert_eq!(read_doc_field(&t.input_json, "accountWebRid").as_deref(), Some("web-7"));
    assert_eq!(recording_account_detail(&mut db, &a.id).unwrap().status, "recording");

    let recovered = recover_stale_recording_runs(&mut db);
    assert_eq!(recovered.len(), 1);
    assert_eq!(recovered[0].id, run.task_id);
    let t = task_detail(&mut db, &run.task_id).unwrap();
    assert_eq!(t.status, "failed");
    assert_eq!(t.error_text.as_deref(), Some(STALE_TASK_REASON));
    assert!(recover_stale_recording_runs(&mut db).is_empty());
    assert_eq!(handle_finished_recorder(&mut db, &a.id, &run.task_id, false), None);

    let mut no_room = recording_account_create(&mut db, &create_payload("Bob")).unwrap();
    no_room.account_room_id = None;
    let e = begin_recording_run(&mut db, &no_room, &live).unwrap_err();
    assert_eq!(e.detail(), "recording requires a valid room id");
}

#[test]
fn a_recorder_that_exits_early_fails_its_run() {
    let mut db = fresh_db();
    let a = recording_account_create(&mut db, &create_payload("Ann")).unwrap();
    let live = RecordingLiveStatusResult {
        platform: "douyin".to_string(),
        status: "live".to_string(),
        account_room_id: Some("r".to_string()),
        account_web_rid: None,
        live_title: None,
        checked_at: String::new(),
        error_message: None,
    };
    let run = begin_recording_run(&mut db, &a, &live).unwrap();
    assert_eq!(
        handle_finished_recorder(&mut db, &a.id, &run.task_id, true),
        Some("recording worker exited before updating task status")
    );
    let t = task_detail(&mut db, &run.task_id).unwrap();
    assert_eq!(t.status, "failed");
    let acc = recording_account_detail(&mut db, &a.id).unwrap();
    assert_eq!(acc.last_error.as_deref(), Some("recording worker exited before updating task status"));
}

#[test]
fn a_settings_change_keeps_what_it_does_not_mention() {
    let mut db = fresh_db();
    let mut p = empty_patch();
    p.theme_mode = Some("dark".to_string());
    p.douyin_cookie = Some("d=1".to_string());
    settings_update(&mut db, &p, "/dl").unwrap();
    let mut q = empty_patch();
    q.locale = Some("en-US".to_string());
    let s = settings_update(&mut db, &q, "/dl").unwrap();
    assert_eq!(s.theme_mode, "dark");
    assert_eq!(s.locale, "en-US");
    assert_eq!(s.douyin_cookie, "d=1");
    assert_eq!(s.douyin_last_check_status, "unchecked");
}

#[test]
fn profile_resolution_needs_a_stored_cookie() {
    let mut db = fresh_db();
    let e = drtools::recording_store::prepare_profile_resolution(&mut db, "douyin", "https://live.douyin.com/9").unwrap_err();
    assert_eq!(e.detail(), "cookie is required for profile resolution");
    assert_eq!(
        drtools::recording_store::prepare_profile_resolution(&mut db, "x", "https://a").unwrap_err().detail(),
        "platform must be one of douyin/tiktok"
    );
    let mut p = empty_patch();
    p.tiktok_cookie = Some(" t=1 \n u=2 ".to_string());
    settings_update(&mut db, &p, "/dl").unwrap();
    let r = drtools::recording_store::prepare_profile_resolution(&mut db, " tiktok ", " https://www.tiktok.com/@a ").unwrap();
    assert_eq!(r.platform, "tiktok");
    assert_eq!(r.source_url, "https://www.tiktok.com/@a");
    assert_eq!(r.cookie, "t=1 u=2");
}

#[test]
fn download_slots_follow_the_setting() {
    let mut db = fresh_db();
    assert_eq!(drtools::download_store::download_slots(&mut db, false), 3);
    assert_eq!(drtools::download_store::download_slots(&mut db, true), 1);
    let mut p = empty_patch();
    p.max_concurrent_downloads = Some(6);
    settings_update(&mut db, &p, "/dl").unwrap();
    assert_eq!(drtools::download_store::read_max_concurrent_downloads(&mut db, false), 6);
    assert_eq!(drtools::scheduler_store::read_max_concurrent_recordings(&mut db), 6);
}

#[test]
fn a_store_that_cannot_be_opened_reports_a_database_error() {
    let mut db = Db::new("/nonexistent-dir-for-drtools/sub/x.db".to_string());
    let e = db.init().unwrap_err();
    assert_eq!(e.kind(), ErrorKind::Database);
    assert_eq!(e.code(), "DB_ERROR");
    assert!(task_list(&mut db, None).is_err());
}

#[test]
fn a_batch_detail_counts_its_tasks() {
    let mut db = fresh_db();
    let submitted = video_download_submit(&mut db, &submit_payload("douyin", &["https://a/1", "https://a/2", "https://a/3"])).unwrap();
    let ids = &submitted.result.created_task_ids;
    finish_download_job(&mut db, &ids[0], &Ok("{}".to_string()));
    finish_download_job(&mut db, &ids[1], &Err("x".to_string()));
    let d = download_batch_detail(&mut db, &submitted.batch_id).unwrap();
    assert_eq!((d.total_count, d.success_count, d.failed_count, d.running_count), (3, 1, 1, 0));
    assert_eq!(d.status, "partial");
    let page = download_batch_list(&mut db, None, None).unwrap();
    assert_eq!(page.items[0].status, "partial");
    assert_eq!(page.items[0].success_count + page.items[0].failed_count, 2);
    finish_download_job(&mut db, &ids[2], &Ok("{}".to_string()));
    assert_eq!(download_batch_detail(&mut db, &submitted.batch_id).unwrap().status, "partial");
}

#[test]
fn a_repeated_check_outcome_is_logged_once() {
    let mut db = fresh_db();
    let a = recording_account_create(&mut db, &create_payload("Ann")).unwrap();
    let live = || RecordingLiveStatusResult {
        platform: "douyin".to_string(),
        status: "live".to_string(),
        account_room_id: None,
        account_web_rid: None,
        live_title: None,
        checked_at: "2024-03-03T00:01:00Z".to_string(),
        error_message: None,
    };
    record_manual_check(&mut db, &a, "t", &Ok(live())).unwrap();
    let after_first = recording_account_detail(&mut db, &a.id).unwrap();
    record_manual_check(&mut db, &after_first, "t", &Ok(live())).unwrap();
    let logs = recording_account_logs(&mut db, &a.id, None).unwrap();
    assert_eq!(logs.iter().filter(|l| l.message == "Ann 当前正在直播。").count(), 1);
}

#[test]
fn a_check_of_blank_ids_covers_no_account() {
    let mut db = fresh_db();
    recording_account_create(&mut db, &create_payload("Ann")).unwrap();
    let ids = vec!["  ".to_string(), "".to_string()];
    assert!(resolve_recording_accounts_to_check(&mut db, &Some(ids)).unwrap().is_empty());
}

#[test]
fn a_batch_reports_its_completion_once() {
    let mut db = fresh_db();
    let submitted = video_download_submit(&mut db, &submit_payload("tiktok", &["https://t/1", "https://t/2"])).unwrap();
    assert!(record_batch_progress(&mut db, &submitted.batch_id, true).is_none());
    let c = record_batch_progress(&mut db, &submitted.batch_id, false).unwrap();
    assert_eq!(c.batch_id, submitted.batch_id);
    assert_eq!(c.platform, "tiktok");
    assert_eq!((c.total_count, c.success_count, c.failed_count), (2, 1, 1));
    assert!(record_batch_progress(&mut db, &submitted.batch_id, true).is_none());
    let detail = download_batch_detail(&mut db, &submitted.batch_id).unwrap();
    assert!(detail.completed_at.is_some());
}

#[test]
fn a_retried_batch_can_complete_again() {
    let mut db = fresh_db();
    let submitted = video_download_submit(&mut db, &submit_payload("douyin", &["https://d/1"])).unwrap();
    assert!(record_batch_progress(&mut db, &submitted.batch_id, true).is_some());
    download_batch_retry(&mut db, &submitted.batch_id).unwrap();
    let c = record_batch_progress(&mut db, &submitted.batch_id, false).unwrap();
    assert_eq!((c.total_count, c.success_count, c.failed_count), (1, 0, 1));
}

#[test]
fn progress_of_an_unknown_batch_is_not_a_completion() {
    let mut db = fresh_db();
    assert!(record_batch_progress(&mut db, "missing", true).is_none());
}

#[test]
fn downloads_go_to_the_stored_then_the_system_directory() {
    let mut db = fresh_db();
    assert_eq!(resolve_output_dir(&mut db, None), ".");
    assert_eq!(resolve_output_dir(&mut db, Some("/home/me/Downloads".to_string())), "/home/me/Downloads");
    let mut p = empty_patch();
    p.export_dir = Some("  /videos ".to_string());
    settings_update(&mut db, &p, "/dl").unwrap();
    assert_eq!(resolve_output_dir(&mut db, Some("/home/me/Downloads".to_string())), "/videos");
}

#[test]
fn a_manual_check_skips_disabled_accounts_and_needs_a_cookie() {
    let mut db = fresh_db();
    let mut a = recording_account_create(&mut db, &create_payload("Bea")).unwrap();
    a.enabled = false;
    assert!(matches!(start_manual_check(&mut db, &a, "2024-05-05T00:00:00Z").unwrap(), ManualCheckStart::Skip));
    a.enabled = true;
    assert!(matches!(start_manual_check(&mut db, &a, "2024-05-05T00:00:00Z").unwrap(), ManualCheckStart::Recorded));
    let after = recording_account_detail(&mut db, &a.id).unwrap();
    assert_eq!(after.status, "error");
    assert_eq!(after.last_error.as_deref(), Some("cookie is required for live status check"));
    let mut p = empty_patch();
    p.douyin_cookie = Some(" d=1 ".to_string());
    settings_update(&mut db, &p, "/dl").unwrap();
    match start_manual_check(&mut db, &a, "2024-05-05T00:01:00Z").unwrap() {
        ManualCheckStart::Send(cookie) => assert_eq!(cookie, "d=1"),
        other => panic!("unexpected {:?}", other),
    }
}

#[test]
fn a_scheduler_check_needs_the_douyin_cookie() {
    let mut db = fresh_db();
    let a = recording_account_create(&mut db, &create_payload("Cid")).unwrap();
    let e = start_scheduler_check(&mut db, &a, "2024-06-06T00:00:00Z").unwrap_err();
    assert_eq!(e.detail(), "cookie is required for live status check");
    let after = recording_account_detail(&mut db, &a.id).unwrap();
    assert_eq!(after.status, "error");
    let mut p = empty_patch();
    p.douyin_cookie = Some("d=2".to_string());
    settings_update(&mut db, &p, "/dl").unwrap();
    assert_eq!(start_scheduler_check(&mut db, &a, "2024-06-06T00:01:00Z").unwrap(), "d=2");
}

#[test]
fn a_batch_listing_counts_the_tasks_of_each_batch() {
    let mut db = fresh_db();
    let submitted = video_download_submit(&mut db, &submit_payload("douyin", &["https://d/1", "https://d/2"])).unwrap();
    let ids = &submitted.result.created_task_ids;
    finish_download_job(&mut db, &ids[0], &Ok("{}".to_string()));
    finish_download_job(&mut db, &ids[1], &Err("boom".to_string()));
    let page = download_batch_list(&mut db, Some(0), Some(10)).unwrap();
    assert_eq!(page.total, 1);
    assert_eq!(page.page, 1);
    assert_eq!(page.page_size, 10);
    assert_eq!(page.items.len(), 1);
    let b = &page.items[0];
    assert_eq!(b.id, submitted.batch_id);
    assert_eq!(b.status, "partial");
    assert_eq!((b.total_count, b.success_count, b.failed_count, b.running_count), (2, 1, 1, 0));
}
