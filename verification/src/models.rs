//! Plain data records exchanged between the store, the schedulers and the
//! user interface.

use vstd::prelude::*;

verus! {

/// Name, version and platform of the running application.
#[derive(Debug)]
pub struct SystemInfo {
    pub app_name: String,
    pub app_version: String,
    pub os: String,
    pub arch: String,
}

/// One task as listed in the task history.
#[derive(Debug)]
pub struct TaskSummary {
    pub id: String,
    pub task_type: String,
    pub status: String,
    pub created_at: String,
    pub updated_at: String,
    pub error_text: Option<String>,
}

/// One log line of a task.
#[derive(Debug)]
pub struct TaskLogEntry {
    pub task_id: String,
    pub level: String,
    pub message: String,
    pub ts: String,
}

/// A task with its log.
#[derive(Debug)]
pub struct TaskDetail {
    pub id: String,
    pub task_type: String,
    pub status: String,
    pub created_at: String,
    pub updated_at: String,
    pub error_text: Option<String>,
    pub logs: Vec<TaskLogEntry>,
}

/// A task with its stored input and output documents (as JSON text) and its log.
#[derive(Debug)]
pub struct TaskRecord {
    pub id: String,
    pub task_type: String,
    pub status: String,
    pub created_at: String,
    pub updated_at: String,
    pub error_text: Option<String>,
    pub input_json: Option<String>,
    pub output_json: Option<String>,
    pub logs: Vec<TaskLogEntry>,
}

/// A download batch as listed.
#[derive(Debug)]
pub struct DownloadBatchSummary {
    pub id: String,
    pub platform: String,
    pub status: String,
    pub total_count: u32,
    pub success_count: u32,
    pub failed_count: u32,
    pub running_count: u32,
    pub created_at: String,
    pub updated_at: String,
    pub completed_at: Option<String>,
}

/// One page of download batches.
#[derive(Debug)]
pub struct DownloadBatchListResult {
    pub items: Vec<DownloadBatchSummary>,
    pub total: u32,
    pub page: u32,
    pub page_size: u32,
}

/// One task of a download batch.
#[derive(Debug)]
pub struct DownloadBatchTaskItem {
    pub id: String,
    pub task_type: String,
    pub status: String,
    pub source_url: Option<String>,
    pub author_name: Option<String>,
    pub author_uid: Option<String>,
    pub created_at: String,
    pub updated_at: String,
    pub error_text: Option<String>,
}

/// A download batch with its tasks.
#[derive(Debug)]
pub struct DownloadBatchDetail {
    pub id: String,
    pub platform: String,
    pub status: String,
    pub total_count: u32,
    pub success_count: u32,
    pub failed_count: u32,
    pub running_count: u32,
    pub created_at: String,
    pub updated_at: String,
    pub completed_at: Option<String>,
    pub tasks: Vec<DownloadBatchTaskItem>,
}

/// The outcome counts of a finished download batch.
#[derive(Debug)]
pub struct DownloadBatchCompletion {
    pub batch_id: String,
    pub platform: String,
    pub total_count: u32,
    pub success_count: u32,
    pub failed_count: u32,
}

/// All user settings, with defaults filled in.
#[derive(Debug)]
pub struct AppSettings {
    pub theme_mode: String,
    pub liquid_glass_style: String,
    pub accent_color: String,
    pub locale: String,
    pub export_dir: String,
    pub max_concurrent_downloads: u32,
    pub download_notifications_enabled: bool,
    pub douyin_cookie: String,
    pub douyin_cookie_updated_at: Option<String>,
    pub douyin_last_checked_at: Option<String>,
    pub douyin_last_check_status: String,
    pub douyin_last_check_message: Option<String>,
    pub tiktok_cookie: String,
    pub tiktok_cookie_updated_at: Option<String>,
    pub tiktok_last_checked_at: Option<String>,
    pub tiktok_last_check_status: String,
    pub tiktok_last_check_message: Option<String>,
    pub auto_check_updates: bool,
    pub last_update_check_at: Option<String>,
    pub last_update_status: Option<String>,
}

/// A partial settings change: each present field is to be written.
#[derive(Debug)]
pub struct AppSettingsPatch {
    pub theme_mode: Option<String>,
    pub liquid_glass_style: Option<String>,
    pub accent_color: Option<String>,
    pub locale: Option<String>,
    pub export_dir: Option<String>,
    pub max_concurrent_downloads: Option<u32>,
    pub download_notifications_enabled: Option<bool>,
    pub douyin_cookie: Option<String>,
    pub tiktok_cookie: Option<String>,
    pub auto_check_updates: Option<bool>,
}

/// A cookie to validate for a platform.
#[derive(Debug)]
pub struct TokenValidationPayload {
    pub platform: String,
    pub cookie: String,
}

/// The outcome of a cookie validation.
#[derive(Debug)]
pub struct TokenValidationResult {
    pub platform: String,
    pub checked_at: String,
    pub status: String,
    pub message: String,
}

/// A profile page to resolve into a recording account.
#[derive(Debug)]
pub struct RecordingAccountResolvePayload {
    pub platform: String,
    pub source_url: String,
}

/// A resolved recording-account profile.
#[derive(Debug)]
pub struct RecordingAccountResolveResult {
    pub platform: String,
    pub account_input: String,
    pub account_name: String,
    pub account_uid: String,
    pub account_avatar_url: Option<String>,
    pub account_room_id: Option<String>,
    pub account_web_rid: Option<String>,
    pub account_sec_user_id: Option<String>,
    pub account_unique_id: Option<String>,
}

/// A watched live-streaming account.
#[derive(Debug)]
pub struct RecordingAccountItem {
    pub id: String,
    pub platform: String,
    pub account_input: String,
    pub account_name: String,
    pub account_uid: String,
    pub account_avatar_url: Option<String>,
    pub account_room_id: Option<String>,
    pub account_web_rid: Option<String>,
    pub account_sec_user_id: Option<String>,
    pub account_unique_id: Option<String>,
    pub auto_start: bool,
    pub retry_on_disconnect: bool,
    pub split_recording: bool,
    pub save_snapshot: bool,
    pub enabled: bool,
    pub status: String,
    pub last_checked_at: Option<String>,
    pub last_recorded_at: Option<String>,
    pub last_error: Option<String>,
    pub created_at: String,
    pub updated_at: String,
}

/// One log line of a recording account.
#[derive(Debug)]
pub struct RecordingAccountLogEntry {
    pub account_id: String,
    pub level: String,
    pub message: String,
    pub ts: String,
}

/// One recording run (a `recording.live` task).
#[derive(Debug)]
pub struct RecordingRunItem {
    pub id: String,
    pub account_id: String,
    pub platform: String,
    pub account_name: String,
    pub status: String,
    pub created_at: String,
    pub updated_at: String,
    pub error_text: Option<String>,
    pub output_path: Option<String>,
}

/// Accounts, recent account logs and recent runs, for one screen.
#[derive(Debug)]
pub struct RecordingAccountsSnapshot {
    pub accounts: Vec<RecordingAccountItem>,
    pub logs: Vec<RecordingAccountLogEntry>,
    pub runs: Vec<RecordingRunItem>,
}

/// A new recording account.
#[derive(Debug)]
pub struct RecordingAccountCreatePayload {
    pub platform: String,
    pub account_input: String,
    pub account_name: String,
    pub account_uid: String,
    pub account_avatar_url: Option<String>,
    pub account_room_id: Option<String>,
    pub account_web_rid: Option<String>,
    pub account_sec_user_id: Option<String>,
    pub account_unique_id: Option<String>,
    pub auto_start: bool,
    pub retry_on_disconnect: bool,
    pub split_recording: bool,
    pub save_snapshot: bool,
}

/// A change to an existing recording account.
#[derive(Debug)]
pub struct RecordingAccountUpdatePayload {
    pub account_id: String,
    pub platform: String,
    pub account_input: String,
    pub account_name: String,
    pub account_uid: String,
    pub account_avatar_url: Option<String>,
    pub account_room_id: Option<String>,
    pub account_web_rid: Option<String>,
    pub account_sec_user_id: Option<String>,
    pub account_unique_id: Option<String>,
    pub auto_start: bool,
    pub retry_on_disconnect: bool,
    pub split_recording: bool,
    pub save_snapshot: bool,
}

/// The live status of an account as the checker reported it.
#[derive(Debug)]
pub struct RecordingLiveStatusResult {
    pub platform: String,
    pub status: String,
    pub account_room_id: Option<String>,
    pub account_web_rid: Option<String>,
    pub live_title: Option<String>,
    pub checked_at: String,
    pub error_message: Option<String>,
}

/// A video download request: a platform, links and what to fetch besides the video.
#[derive(Debug)]
pub struct VideoDownloadSubmitPayload {
    pub platform: String,
    pub urls: Vec<String>,
    pub download_cover: bool,
    pub download_music: bool,
    pub download_description: bool,
    pub download_lyric: bool,
}

/// What a video download request created.
#[derive(Debug)]
pub struct VideoDownloadSubmitResult {
    pub created_task_ids: Vec<String>,
    pub accepted_count: u32,
    pub skipped_count: u32,
    pub invalid_urls: Vec<String>,
}

/// The outcome of an update check.
#[derive(Debug)]
pub struct UpdateCheckResult {
    pub checked_at: String,
    pub status: String,
    pub message: String,
    pub current_version: String,
    pub latest_version: String,
}

/// State of the managed Python/ffmpeg environment.
#[derive(Debug)]
pub struct ManagedEnvironmentStatus {
    pub python_version: String,
    pub ffmpeg_version: String,
    pub source_label: String,
    pub source_url: String,
    pub install_dir: String,
    pub python_bin: Option<String>,
    pub ffmpeg_bin: Option<String>,
    pub installed: bool,
    pub status: String,
    pub message: String,
}

} // verus!
