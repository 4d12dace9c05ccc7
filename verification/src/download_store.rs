//! The download worker's steps against the store: the settings a download
//! reads, the JSON input it sends, and what it records when it ends.

use vstd::prelude::*;
use crate::database::{Db, first_value, status_set_at, logged_at, task_failed_at};
use crate::statements::{StoreOp, text_arg, stamp, answer, tried, reply, SQL_GET_META, SQL_TASK_SUCCEEDED};
use crate::settings::setting_key_text;
use crate::external::{json_object, json_object_text, json_text_field, JsonField, JsonFieldView, fields_view, distinct_keys};
use crate::models::DownloadBatchCompletion;
use crate::notify::{Notice, notify_download_batch_completed, batch_notice_spec};
use crate::queue::{QueuedDownloadTask, download_concurrency_from_setting};
use crate::settings::{SettingKey, parse_bool, parse_bool_spec};
use crate::text::{opt_view, trim_str, trim_spec, lemma_trim_idempotent, chars_of, extend_str, string_from_chars, str_eq};

verus! {

/// A stored text, trimmed, when it is not blank.
pub open spec fn non_blank_spec(raw: Option<Seq<char>>) -> Option<Seq<char>> {
    match raw {
        Some(v) => if trim_spec(v).len() > 0 {
            Some(trim_spec(v))
        } else {
            None
        },
        None => None,
    }
}

/// A stored text, trimmed, when it is not blank.
pub fn non_blank(raw: Option<String>) -> (r: Option<String>)
    ensures
        opt_view(r) == non_blank_spec(opt_view(raw)),
{
    match raw {
        Some(v) => {
            let t = trim_str(v.as_str());
            if t.as_str().is_empty() {
                None
            } else {
                Some(t)
            }
        },
        None => None,
    }
}

/// Reads a setting; `None` when it is unset or cannot be read.
fn read_setting(db: &mut Db, key: SettingKey) -> (r: Option<String>)
    ensures
        final(db).path_view() == old(db).path_view(),
        tried(old(db).ops(), final(db).ops(), SQL_GET_META@, seq![text_arg(setting_key_text(key))]),
        opt_view(r) == first_value(answer(final(db).ops())),
{
    match db.get_meta(key.as_str()) {
        Ok(v) => v,
        Err(_) => None,
    }
}

/// The cookie a download of `platform` sends: the stored cookie of douyin or
/// tiktok, trimmed, when not blank; none for other platforms.
pub fn resolve_download_cookie(db: &mut Db, platform: &str) -> (r: Option<String>)
    ensures
        platform@ != "douyin"@ && platform@ != "tiktok"@ ==> r is None && final(db).ops() == old(db).ops(),
        r matches Some(c) ==> c@.len() > 0 && trim_spec(c@) == c@,
        final(db).path_view() == old(db).path_view(),
        platform@ == "douyin"@ || platform@ == "tiktok"@ ==> {
            &&& tried(old(db).ops(), final(db).ops(), SQL_GET_META@, seq![text_arg(setting_key_text(
                if platform@ == "douyin"@ { SettingKey::DouyinCookie } else { SettingKey::TiktokCookie }))])
            &&& opt_view(r) == non_blank_spec(first_value(answer(final(db).ops())))
        },
{
    let key = if str_eq(platform, "douyin") {
        SettingKey::DouyinCookie
    } else if str_eq(platform, "tiktok") {
        SettingKey::TiktokCookie
    } else {
        return None;
    };
    let raw = read_setting(db, key);
    let ghost stored = opt_view(raw);
    let r = non_blank(raw);
    proof {
        if let Some(v) = stored {
            lemma_trim_idempotent(v);
        }
    }
    r
}

/// Whether batch notifications are on, read from the stored switch: on
/// unless it reads as off.
pub open spec fn notifications_spec(raw: Option<Seq<char>>) -> bool {
    match raw {
        Some(v) => match parse_bool_spec(v) {
            Some(b) => b,
            None => true,
        },
        None => true,
    }
}

/// Whether batch notifications are on, from the stored switch.
pub fn notifications_enabled_from(raw: Option<String>) -> (r: bool)
    ensures
        r == notifications_spec(opt_view(raw)),
{
    match raw {
        Some(v) => match parse_bool(v.as_str()) {
            Some(b) => b,
            None => true,
        },
        None => true,
    }
}

/// Whether batch notifications are on; on when the switch cannot be read.
pub fn resolve_download_notifications_enabled(db: &mut Db) -> (r: bool)
    ensures
        final(db).path_view() == old(db).path_view(),
        tried(old(db).ops(), final(db).ops(), SQL_GET_META@, seq![text_arg(setting_key_text(SettingKey::DownloadNotificationsEnabled))]),
        r == notifications_spec(first_value(answer(final(db).ops()))),
{
    notifications_enabled_from(read_setting(db, SettingKey::DownloadNotificationsEnabled))
}

/// The stored export directory, trimmed, when set and not blank; the caller
/// falls back to the system's download directory.
pub fn stored_output_dir(db: &mut Db) -> (r: Option<String>)
    ensures
        r matches Some(d) ==> d@.len() > 0,
        final(db).path_view() == old(db).path_view(),
        tried(old(db).ops(), final(db).ops(), SQL_GET_META@, seq![text_arg(setting_key_text(SettingKey::ExportDir))]),
        opt_view(r) == non_blank_spec(first_value(answer(final(db).ops()))),
{
    non_blank(read_setting(db, SettingKey::ExportDir))
}

/// The download concurrency from the stored setting, as in
/// `download_concurrency_from_setting` (within 1..=8, else 3); 3 when it
/// cannot be read, at most 1 when `single_slot`.
pub fn read_max_concurrent_downloads(db: &mut Db, single_slot: bool) -> (n: usize)
    ensures
        1 <= n <= 8,
        single_slot ==> n == 1,
        final(db).path_view() == old(db).path_view(),
        tried(old(db).ops(), final(db).ops(), SQL_GET_META@, seq![text_arg(setting_key_text(SettingKey::MaxConcurrentDownloads))]),
        n == crate::queue::stored_download_concurrency(first_value(answer(final(db).ops())), single_slot),
{
    download_concurrency_from_setting(read_setting(db, SettingKey::MaxConcurrentDownloads), single_slot)
}

/// The number of downloads that may run at once: the configured concurrency,
/// at least 1.
pub fn download_slots(db: &mut Db, single_slot: bool) -> (n: usize)
    ensures
        1 <= n <= 8,
        single_slot ==> n == 1,
        final(db).path_view() == old(db).path_view(),
        tried(old(db).ops(), final(db).ops(), SQL_GET_META@, seq![text_arg(setting_key_text(SettingKey::MaxConcurrentDownloads))]),
        n == crate::queue::stored_download_concurrency(first_value(answer(final(db).ops())), single_slot),
{
    let n = read_max_concurrent_downloads(db, single_slot);
    if n < 1 {
        1
    } else {
        n
    }
}

/// The fields of a download task's JSON input.
pub open spec fn download_job_fields(job: QueuedDownloadTask, output_dir: Seq<char>, cookie: Option<Seq<char>>) -> Seq<(Seq<char>, JsonFieldView)> {
    seq![
        ("taskId"@, JsonFieldView::Text(job.task_id@)),
        ("platform"@, JsonFieldView::Text(job.platform@)),
        ("sourceUrl"@, JsonFieldView::Text(job.source_url@)),
        ("downloadCover"@, JsonFieldView::Flag(job.download_cover)),
        ("downloadMusic"@, JsonFieldView::Flag(job.download_music)),
        ("downloadDescription"@, JsonFieldView::Flag(job.download_description)),
        ("downloadLyric"@, JsonFieldView::Flag(job.download_lyric)),
        ("outputDir"@, JsonFieldView::Text(output_dir)),
        ("cookie"@, match cookie {
            Some(c) => JsonFieldView::Text(c),
            None => JsonFieldView::Null,
        }),
    ]
}

proof fn lemma_job_fields_distinct(f: Seq<(Seq<char>, JsonFieldView)>, job: QueuedDownloadTask, output_dir: Seq<char>, cookie: Option<Seq<char>>)
    requires
        f == download_job_fields(job, output_dir, cookie),
    ensures
        distinct_keys(f),
{
    reveal_strlit("taskId");
    reveal_strlit("platform");
    reveal_strlit("sourceUrl");
    reveal_strlit("downloadCover");
    reveal_strlit("downloadMusic");
    reveal_strlit("downloadDescription");
    reveal_strlit("downloadLyric");
    reveal_strlit("outputDir");
    reveal_strlit("cookie");
    assert forall|i: int, j: int| 0 <= i < j < f.len() implies f[i].0 != f[j].0 by {
        if f[i].0.len() == f[j].0.len() {
            assert(f[i].0[0] != f[j].0[0] || f[i].0[8] != f[j].0[8]);
        }
    }
}

/// The JSON input of a download task; its `taskId` and `outputDir` read back
/// as the job's task id and `output_dir`.
pub fn download_job_payload(job: &QueuedDownloadTask, output_dir: &str, cookie: &Option<String>) -> (r: String)
    ensures
        r@ == json_object_text(download_job_fields(*job, output_dir@, opt_view(*cookie))),
        json_text_field(r@, "taskId"@) == Some(job.task_id@),
        json_text_field(r@, "outputDir"@) == Some(output_dir@),
{
    let cookie_field = match cookie {
        Some(c) => JsonField::Text(c.clone()),
        None => JsonField::Null,
    };
    let fields: Vec<(String, JsonField)> = vec![
        ("taskId".to_owned(), JsonField::Text(job.task_id.clone())),
        ("platform".to_owned(), JsonField::Text(job.platform.clone())),
        ("sourceUrl".to_owned(), JsonField::Text(job.source_url.clone())),
        ("downloadCover".to_owned(), JsonField::Flag(job.download_cover)),
        ("downloadMusic".to_owned(), JsonField::Flag(job.download_music)),
        ("downloadDescription".to_owned(), JsonField::Flag(job.download_description)),
        ("downloadLyric".to_owned(), JsonField::Flag(job.download_lyric)),
        ("outputDir".to_owned(), JsonField::Text(output_dir.to_owned())),
        ("cookie".to_owned(), cookie_field),
    ];
    let ghost f = download_job_fields(*job, output_dir@, opt_view(*cookie));
    assert(fields_view(fields@) =~= f);
    proof {
        lemma_job_fields_distinct(f, *job, output_dir@, opt_view(*cookie));
    }
    let r = json_object(&fields);
    assert(fields_view(fields@)[0] == f[0]);
    assert(fields_view(fields@)[7] == f[7]);
    r
}

/// Shows a download task running, with a log line.
pub fn begin_download_job(db: &mut Db, task_id: &str)
    ensures
        final(db).path_view() == old(db).path_view(),
        old(db).ops().is_prefix_of(final(db).ops()),
        final(db).ops().len() == old(db).ops().len() + 2,
        status_set_at(final(db).ops(), old(db).ops().len() as int, task_id@, "running"@),
        logged_at(final(db).ops(), old(db).ops().len() as int + 1, task_id@, "info"@, "video download task running"@),
{
    let _ = db.update_task_status(task_id, "running");
    let _ = db.append_log(task_id, "info", "video download task running");
}

/// The log line of a failed download.
pub open spec fn download_failure_line(message: Seq<char>) -> Seq<char> {
    "video download task failed: "@ + message
}

/// Records how a download ended: its JSON output, or the error message.
/// Gives the log line written.
pub fn finish_download_job(db: &mut Db, task_id: &str, outcome: &Result<String, String>) -> (line: String)
    ensures
        match outcome {
            Ok(_) => line@ == "video download task success"@,
            Err(m) => line@ == download_failure_line(m@),
        },
        final(db).path_view() == old(db).path_view(),
        old(db).ops().is_prefix_of(final(db).ops()),
        ({
            let n = old(db).ops().len() as int;
            let f = final(db).ops();
            &&& f.len() == n + 2
            &&& match outcome {
                Ok(out) => f[n] == StoreOp::Execute(SQL_TASK_SUCCEEDED@,
                        seq![text_arg(task_id@), text_arg("success"@), text_arg(out@), text_arg(stamp(f[n]))])
                    && logged_at(f, n + 1, task_id@, "info"@, line@),
                Err(m) => task_failed_at(f, n, task_id@, m@) && logged_at(f, n + 1, task_id@, "error"@, line@),
            }
        }),
{
    match outcome {
        Ok(output) => {
            let _ = db.update_task_success(task_id, output.as_str());
            let line = "video download task success".to_owned();
            let _ = db.append_log(task_id, "info", line.as_str());
            line
        },
        Err(message) => {
            let _ = db.update_task_failure(task_id, message.as_str());
            let mut v = chars_of("video download task failed: ");
            extend_str(&mut v, message.as_str());
            let line = string_from_chars(&v);
            let _ = db.append_log(task_id, "error", line.as_str());
            line
        },
    }
}

/// Records a download whose worker panicked: the task fails and is logged.
pub fn record_download_panic(db: &mut Db, task_id: &str)
    ensures
        final(db).path_view() == old(db).path_view(),
        old(db).ops().is_prefix_of(final(db).ops()),
        final(db).ops().len() == old(db).ops().len() + 2,
        task_failed_at(final(db).ops(), old(db).ops().len() as int, task_id@, "video download worker panicked unexpectedly"@),
        logged_at(final(db).ops(), old(db).ops().len() as int + 1, task_id@, "error"@, "video download worker panicked unexpectedly"@),
{
    let message = "video download worker panicked unexpectedly";
    let _ = db.update_task_failure(task_id, message);
    let _ = db.append_log(task_id, "error", message);
}

/// The notice for a finished batch, when notifications are on and the batch
/// has just completed.
pub fn completion_notice(enabled: bool, completion: &Option<DownloadBatchCompletion>) -> (n: Option<Notice>)
    ensures
        n is Some <==> enabled && completion is Some,
        n matches Some(notice) ==> (notice.title@, notice.body@) == batch_notice_spec(
            completion.unwrap().platform@,
            completion.unwrap().total_count as nat,
            completion.unwrap().success_count as nat,
            completion.unwrap().failed_count as nat,
        ),
{
    if !enabled {
        return None;
    }
    match completion {
        Some(c) => Some(notify_download_batch_completed(c)),
        None => None,
    }
}

/// Where downloads go: the stored export directory (trimmed) when set and not
/// blank, else `system_dir` when known, else the current directory.
pub open spec fn output_dir_spec(stored: Option<Seq<char>>, system_dir: Option<Seq<char>>) -> Seq<char> {
    match non_blank_spec(stored) {
        Some(d) => d,
        None => match system_dir {
            Some(d) => d,
            None => "."@,
        },
    }
}

/// The directory downloads go to, `system_dir` being the system's download
/// directory when it is known.
pub fn resolve_output_dir(db: &mut Db, system_dir: Option<String>) -> (r: String)
    ensures
        final(db).path_view() == old(db).path_view(),
        tried(old(db).ops(), final(db).ops(), SQL_GET_META@, seq![text_arg(setting_key_text(SettingKey::ExportDir))]),
        r@ == output_dir_spec(first_value(answer(final(db).ops())), opt_view(system_dir)),
{
    match stored_output_dir(db) {
        Some(d) => d,
        None => match system_dir {
            Some(d) => d,
            None => ".".to_owned(),
        },
    }
}

/// Counts a finished download against its batch (see
/// `Db::finish_download_batch_task`); the batch's summary when that completed
/// it, none otherwise or when the store fails.
pub fn record_batch_progress(db: &mut Db, batch_id: &str, success: bool) -> (r: Option<DownloadBatchCompletion>)
    ensures
        final(db).path_view() == old(db).path_view(),
        old(db).ops().is_prefix_of(final(db).ops()),
        r matches Some(c) ==> {
            let n = old(db).ops().len() as int;
            let f = final(db).ops();
            &&& f.len() == n + 3
            &&& f[n + 1] == StoreOp::Query(crate::statements::SQL_BATCH_PROGRESS@, seq![text_arg(batch_id@)], Some(reply(f[n + 1])))
            &&& reply(f[n + 1]).len() > 0
            &&& crate::database::batch_progress_row(reply(f[n + 1])[0], c)
            &&& crate::batch::batch_complete(c.total_count as int, c.success_count as int, c.failed_count as int)
        },
{
    match db.finish_download_batch_task(batch_id, success) {
        Ok(c) => c,
        Err(_) => None,
    }
}

} // verus!
