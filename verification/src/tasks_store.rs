//! Task commands against the store: submitting video downloads, retrying a
//! batch, and recording a generic task run.

use vstd::prelude::*;
use crate::database::{
    Db, batch_page_read, batch_detail_read, task_record_read, detail_found, task_inserted_at, logged_at,
    status_set_at,
};
use crate::statements::{StoreOp, SqlArg, text_arg, reply, stamp, SQL_INSERT_BATCH, SQL_RETRY_CANDIDATES, SQL_RESET_BATCH,
    SQL_TASK_SUCCEEDED, SQL_TASK_FAILED, asked, answer};
use crate::error::{AppError, ErrorKind, validation, validation_error};
use crate::external::{json_object, json_text_field, JsonField, JsonFieldView, fields_view, distinct_keys};
use crate::models::{
    VideoDownloadSubmitPayload, VideoDownloadSubmitResult, TaskSummary, DownloadBatchListResult,
    DownloadBatchDetail, TaskDetail, TaskRecord,
};
use crate::ui::{clamp_or_default, clamp_spec, required_id};
use crate::submit::{
    validate_download_platform, classify_urls, classify_spec, views, is_supported_platform,
    platform_error_message,
};
use crate::text::{opt_view, trim_str, trim_spec, chars_of, extend_str, string_from_chars};
use crate::sqlite::SqlValue;
use crate::rows::retryable_row;

verus! {

/// The JSON input of one video-download task.
pub open spec fn download_task_fields(batch_id: Seq<char>, platform: Seq<char>, source_url: Seq<char>, cover: bool, music: bool, description: bool, lyric: bool) -> Seq<(Seq<char>, JsonFieldView)> {
    seq![
        ("batchId"@, JsonFieldView::Text(batch_id)),
        ("platform"@, JsonFieldView::Text(platform)),
        ("sourceUrl"@, JsonFieldView::Text(source_url)),
        ("downloadCover"@, JsonFieldView::Flag(cover)),
        ("downloadMusic"@, JsonFieldView::Flag(music)),
        ("downloadDescription"@, JsonFieldView::Flag(description)),
        ("downloadLyric"@, JsonFieldView::Flag(lyric)),
    ]
}

proof fn lemma_download_fields_distinct(f: Seq<(Seq<char>, JsonFieldView)>, batch_id: Seq<char>, platform: Seq<char>, source_url: Seq<char>, cover: bool, music: bool, description: bool, lyric: bool)
    requires
        f == download_task_fields(batch_id, platform, source_url, cover, music, description, lyric),
    ensures
        distinct_keys(f),
{
    reveal_strlit("batchId");
    reveal_strlit("platform");
    reveal_strlit("sourceUrl");
    reveal_strlit("downloadCover");
    reveal_strlit("downloadMusic");
    reveal_strlit("downloadDescription");
    reveal_strlit("downloadLyric");
    assert forall|i: int, j: int| 0 <= i < j < f.len() implies f[i].0 != f[j].0 by {
        if f[i].0.len() == f[j].0.len() {
            assert(f[i].0[0] != f[j].0[0] || f[i].0[1] != f[j].0[1] || f[i].0[8] != f[j].0[8]);
        }
    }
}

/// Writes the JSON input of a video-download task; its `batchId` reads back
/// as `batch_id`.
pub fn download_task_payload(batch_id: &str, platform: &str, source_url: &str, cover: bool, music: bool, description: bool, lyric: bool) -> (r: String)
    ensures
        r@ == crate::external::json_object_text(download_task_fields(batch_id@, platform@, source_url@, cover, music, description, lyric)),
        json_text_field(r@, "batchId"@) == Some(batch_id@),
{
    let fields: Vec<(String, JsonField)> = vec![
        ("batchId".to_owned(), JsonField::Text(batch_id.to_owned())),
        ("platform".to_owned(), JsonField::Text(platform.to_owned())),
        ("sourceUrl".to_owned(), JsonField::Text(source_url.to_owned())),
        ("downloadCover".to_owned(), JsonField::Flag(cover)),
        ("downloadMusic".to_owned(), JsonField::Flag(music)),
        ("downloadDescription".to_owned(), JsonField::Flag(description)),
        ("downloadLyric".to_owned(), JsonField::Flag(lyric)),
    ];
    let ghost f = download_task_fields(batch_id@, platform@, source_url@, cover, music, description, lyric);
    assert(fields_view(fields@) =~= f);
    proof {
        lemma_download_fields_distinct(f, batch_id@, platform@, source_url@, cover, music, description, lyric);
    }
    let r = json_object(&fields);
    assert(fields_view(fields@)[0] == f[0]);
    r
}

/// A task created by a download submission is, while queued, among the
/// retryable tasks of its batch.
pub proof fn law_submitted_task_is_retryable(task_id: Seq<char>, batch_id: Seq<char>, platform: Seq<char>, source_url: Seq<char>, cover: bool, music: bool, description: bool, lyric: bool, row: Seq<SqlValue>)
    requires
        row.len() == 4,
        row[0] matches SqlValue::Text(s) && s@ == task_id,
        row[1] matches SqlValue::Text(s) && s@ == "video.download"@,
        row[2] matches SqlValue::Text(s) && s@ == "queued"@,
        row[3] matches SqlValue::Text(s) && json_text_field(s@, "batchId"@) == Some(batch_id),
    ensures
        retryable_row(row, batch_id),
{
}

/// The JSON input a submission gives the task for `url` of batch `batch_id`.
pub open spec fn download_input(batch_id: Seq<char>, p: VideoDownloadSubmitPayload, url: Seq<char>) -> Seq<char> {
    crate::external::json_object_text(download_task_fields(batch_id, p.platform@, url, p.download_cover,
        p.download_music, p.download_description, p.download_lyric))
}

/// At position `k` of `ops` the video download `id` of `url` in batch
/// `batch_id` is stored, queued, and at `k + 1` its first log line added.
pub open spec fn download_task_queued_at(ops: Seq<StoreOp>, k: int, id: Seq<char>, batch_id: Seq<char>, p: VideoDownloadSubmitPayload, url: Seq<char>) -> bool {
    &&& task_inserted_at(ops, k, id, "video.download"@, download_input(batch_id, p, url))
    &&& logged_at(ops, k + 1, id, "info"@, "video download task queued"@)
}

/// `after` is `before` with a submission stored: batch `batch_id` of the
/// payload's platform counting the accepted links, then for each accepted
/// link, in order, its queued task `ids[k]` and that task's first log line.
pub open spec fn submission_stored(before: Seq<StoreOp>, after: Seq<StoreOp>, p: VideoDownloadSubmitPayload, batch_id: Seq<char>, accepted: Seq<Seq<char>>, ids: Seq<String>) -> bool {
    let n = before.len() as int;
    &&& after.len() == n + 1 + 2 * accepted.len()
    &&& ids.len() == accepted.len()
    &&& after[n] == StoreOp::Execute(SQL_INSERT_BATCH@, seq![text_arg(batch_id), text_arg(p.platform@),
        SqlArg::Integer(accepted.len() as i64), text_arg(stamp(after[n]))])
    &&& forall|k: int| 0 <= k < accepted.len() ==> #[trigger] download_task_queued_at(after, n + 1 + 2 * k, ids[k]@, batch_id, p, accepted[k])
}

/// A created batch and what its submission made of the links.
#[derive(Debug)]
pub struct SubmittedBatch {
    pub batch_id: String,
    pub result: VideoDownloadSubmitResult,
}

/// Creates a download batch and one queued task per accepted link. The
/// platform must be supported, at most 100 links may be sent, and at least
/// one must be accepted.
pub fn video_download_submit(db: &mut Db, payload: &VideoDownloadSubmitPayload) -> (r: Result<SubmittedBatch, AppError>)
    ensures
        !is_supported_platform(payload.platform@) ==> (r matches Err(e) && e@ == validation_error(platform_error_message())),
        is_supported_platform(payload.platform@) && payload.urls@.len() > 100 ==> (r matches Err(e) && e@ == validation_error("video download submission cannot exceed 100 urls"@)),
        is_supported_platform(payload.platform@) && payload.urls@.len() <= 100 && classify_spec(views(payload.urls@)).0.len() == 0
            ==> (r matches Err(e) && e@ == validation_error("video download submission must include at least one valid url"@)),
        r matches Err(e) ==> e@.0 == ErrorKind::Validation || e@.0 == ErrorKind::Database,
        is_supported_platform(payload.platform@) && payload.urls@.len() <= 100 && classify_spec(views(payload.urls@)).0.len() > 0
            ==> (r matches Err(e) ==> e@.0 == ErrorKind::Database),
        r matches Err(e) && e@.0 == ErrorKind::Validation ==> final(db).ops() == old(db).ops(),
        final(db).path_view() == old(db).path_view(),
        old(db).ops().is_prefix_of(final(db).ops()),
        r matches Ok(b) ==> submission_stored(old(db).ops(), final(db).ops(), *payload, b.batch_id@,
            classify_spec(views(payload.urls@)).0, b.result.created_task_ids@),
        r matches Ok(b) ==> {
            let (accepted, invalid, skipped) = classify_spec(views(payload.urls@));
            &&& is_supported_platform(payload.platform@)
            &&& payload.urls@.len() <= 100
            &&& accepted.len() > 0
            &&& b.result.accepted_count == accepted.len()
            &&& b.result.created_task_ids@.len() == accepted.len()
            &&& forall|k: int| 0 <= k < accepted.len() ==> (#[trigger] b.result.created_task_ids@[k])@.len() == 36
            &&& views(b.result.invalid_urls@) == invalid
            &&& b.result.skipped_count == skipped
        },
{
    validate_download_platform(payload.platform.as_str())?;
    if payload.urls.len() > 100 {
        return Err(validation("video download submission cannot exceed 100 urls"));
    }
    let c = classify_urls(&payload.urls);
    proof {
        crate::submit::law_classification_accounts_for_every_link(views(payload.urls@));
    }
    assert(views(c.accepted@).len() == c.accepted@.len());
    if c.accepted.len() == 0 {
        return Err(validation("video download submission must include at least one valid url"));
    }
    let platform = payload.platform.as_str();
    let ghost n = db.ops().len() as int;
    let batch_id = db.insert_download_batch(platform, c.accepted.len() as u32)?;
    let mut created: Vec<String> = Vec::new();
    let mut i: usize = 0;
    while i < c.accepted.len()
        invariant
            i <= c.accepted@.len() <= 100,
            db.path_view() == old(db).path_view(),
            old(db).ops().is_prefix_of(db.ops()),
            n == old(db).ops().len(),
            platform@ == payload.platform@,
            db.ops().len() == n + 1 + 2 * i,
            db.ops()[n] == StoreOp::Execute(SQL_INSERT_BATCH@, seq![text_arg(batch_id@), text_arg(payload.platform@),
                SqlArg::Integer(c.accepted@.len() as i64), text_arg(stamp(db.ops()[n]))]),
            forall|k: int| 0 <= k < i ==> #[trigger] download_task_queued_at(db.ops(), n + 1 + 2 * k, created@[k]@,
                batch_id@, *payload, c.accepted@[k]@),
            created@.len() == i,
            forall|k: int| 0 <= k < i ==> (#[trigger] created@[k])@.len() == 36,
            c.accepted@.len() > 0,
            is_supported_platform(payload.platform@),
            payload.urls@.len() <= 100,
            (views(c.accepted@), views(c.invalid@), c.skipped as nat) == classify_spec(views(payload.urls@)),
        decreases c.accepted.len() - i,
    {
        let input = download_task_payload(
            batch_id.as_str(),
            platform,
            c.accepted[i].as_str(),
            payload.download_cover,
            payload.download_music,
            payload.download_description,
            payload.download_lyric,
        );
        let ghost before = db.ops();
        let task_id = db.insert_task("video.download", input.as_str())?;
        let ghost mid = db.ops();
        db.append_log(task_id.as_str(), "info", "video download task queued")?;
        proof {
            assert(db.ops()[n + 1 + 2 * i] == mid.last());
            assert(input@ == download_input(batch_id@, *payload, c.accepted@[i as int]@));
            assert(task_inserted_at(db.ops(), n + 1 + 2 * i, task_id@, "video.download"@, input@));
            assert(download_task_queued_at(db.ops(), n + 1 + 2 * i, task_id@, batch_id@, *payload, c.accepted@[i as int]@));
            assert forall|k: int| 0 <= k < i implies #[trigger] download_task_queued_at(db.ops(), n + 1 + 2 * k, created@[k]@,
                batch_id@, *payload, c.accepted@[k]@) by {
                assert(download_task_queued_at(before, n + 1 + 2 * k, created@[k]@, batch_id@, *payload, c.accepted@[k]@));
            }
        }
        created.push(task_id);
        i += 1;
    }
    proof {
        assert(views(c.accepted@) == classify_spec(views(payload.urls@)).0);
        assert forall|k: int| 0 <= k < c.accepted@.len() implies #[trigger] download_task_queued_at(db.ops(), n + 1 + 2 * k,
            created@[k]@, batch_id@, *payload, classify_spec(views(payload.urls@)).0[k]) by {
            assert(views(c.accepted@)[k] == c.accepted@[k]@);
        }
    }
    let accepted_count = created.len() as u32;
    Ok(SubmittedBatch {
        batch_id,
        result: VideoDownloadSubmitResult {
            created_task_ids: created,
            accepted_count,
            skipped_count: c.skipped,
            invalid_urls: c.invalid,
        },
    })
}

/// At position `k` of `ops` task `id` is queued again, and at `k + 1` the
/// retry noted in its log.
pub open spec fn requeued_at(ops: Seq<StoreOp>, k: int, id: Seq<char>) -> bool {
    &&& status_set_at(ops, k, id, "queued"@)
    &&& logged_at(ops, k + 1, id, "info"@, "video download batch retried"@)
}

/// `after` is `before` with a retry of batch `batch_id` stored: its queued
/// video downloads asked for (there are some), its counts cleared, then each
/// of those tasks, in order, queued again with a log line.
pub open spec fn retry_stored(before: Seq<StoreOp>, after: Seq<StoreOp>, batch_id: Seq<char>) -> bool {
    let n = before.len() as int;
    let jobs = crate::rows::retryable_ids_spec(reply(after[n]), batch_id);
    &&& after.len() == n + 2 + 2 * jobs.len()
    &&& jobs.len() > 0
    &&& after[n] == StoreOp::Query(SQL_RETRY_CANDIDATES@, seq![], Some(reply(after[n])))
    &&& after[n + 1] == StoreOp::Execute(SQL_RESET_BATCH@, seq![text_arg(batch_id), text_arg(stamp(after[n + 1]))])
    &&& forall|k: int| 0 <= k < jobs.len() ==> #[trigger] requeued_at(after, n + 2 + 2 * k, jobs[k])
}

/// Re-queues the queued video downloads of a batch and clears its counts;
/// gives the trimmed batch id. A blank id, or a batch without queued
/// downloads, is refused.
pub fn download_batch_retry(db: &mut Db, batch_id: &str) -> (r: Result<String, AppError>)
    ensures
        trim_spec(batch_id@).len() == 0 ==> (r matches Err(e) && e@ == validation_error("batch_id is required"@)),
        r matches Ok(id) ==> id@ == trim_spec(batch_id@),
        r matches Err(e) ==> e@.0 == ErrorKind::Validation || e@.0 == ErrorKind::Database,
        trim_spec(batch_id@).len() > 0 ==> (r matches Err(e) ==> e@.0 == ErrorKind::Database
            || e@ == validation_error("download batch has no retryable queued tasks"@)),
        final(db).path_view() == old(db).path_view(),
        old(db).ops().is_prefix_of(final(db).ops()),
        trim_spec(batch_id@).len() == 0 ==> final(db).ops() == old(db).ops(),
        trim_spec(batch_id@).len() > 0 && (r is Ok || (r matches Err(e) && e@ == validation_error("download batch has no retryable queued tasks"@))) ==> {
            let n = old(db).ops().len() as int;
            &&& final(db).ops().len() > n
            &&& final(db).ops()[n] == StoreOp::Query(SQL_RETRY_CANDIDATES@, seq![], Some(reply(final(db).ops()[n])))
        },
        trim_spec(batch_id@).len() > 0 && (r matches Err(e) && e@ == validation_error("download batch has no retryable queued tasks"@)) ==> {
            let n = old(db).ops().len() as int;
            &&& final(db).ops().len() == n + 1
            &&& crate::rows::retryable_ids_spec(reply(final(db).ops()[n]), trim_spec(batch_id@)).len() == 0
        },
        r matches Ok(id) ==> retry_stored(old(db).ops(), final(db).ops(), id@),
{
    let trimmed = required_id(batch_id, "batch_id is required")?;
    let ghost n = db.ops().len() as int;
    let jobs = db.list_retryable_download_task_ids_for_batch(trimmed.as_str())?;
    if jobs.len() == 0 {
        return Err(validation("download batch has no retryable queued tasks"));
    }
    let ghost s1 = db.ops();
    db.reset_download_batch_for_retry(trimmed.as_str())?;
    let ghost s2 = db.ops();
    let mut i: usize = 0;
    while i < jobs.len()
        invariant
            i <= jobs@.len(),
            trim_spec(batch_id@).len() > 0,
            trimmed@ == trim_spec(batch_id@),
            db.path_view() == old(db).path_view(),
            old(db).ops().is_prefix_of(db.ops()),
            s2.is_prefix_of(db.ops()),
            s2.len() == n + 2,
            db.ops().len() == n + 2 + 2 * i,
            forall|k: int| 0 <= k < i ==> #[trigger] requeued_at(db.ops(), n + 2 + 2 * k, jobs@[k]@),
        decreases jobs.len() - i,
    {
        let ghost before = db.ops();
        db.update_task_status(jobs[i].as_str(), "queued")?;
        db.append_log(jobs[i].as_str(), "info", "video download batch retried")?;
        proof {
            assert(requeued_at(db.ops(), n + 2 + 2 * i, jobs@[i as int]@));
            assert forall|k: int| 0 <= k < i implies #[trigger] requeued_at(db.ops(), n + 2 + 2 * k, jobs@[k]@) by {
                assert(requeued_at(before, n + 2 + 2 * k, jobs@[k]@));
            }
        }
        i += 1;
    }
    proof {
        crate::statements::lemma_prefix_index(s1, db.ops(), n);
        crate::statements::lemma_prefix_index(s2, db.ops(), n + 1);
        let jv = crate::rows::retryable_ids_spec(reply(db.ops()[n]), trimmed@);
        assert(views(jobs@) == jv);
        assert forall|k: int| 0 <= k < jv.len() implies #[trigger] requeued_at(db.ops(), n + 2 + 2 * k, jv[k]) by {
            assert(views(jobs@)[k] == jobs@[k]@);
        }
    }
    Ok(trimmed)
}

/// Records a task about to run: refuses a blank task type, then stores the
/// task (queued) with a first log line; gives its id.
pub fn begin_task_run(db: &mut Db, task_type: &str, input_json: &str) -> (r: Result<String, AppError>)
    ensures
        trim_spec(task_type@).len() == 0 ==> (r matches Err(e) && e@ == validation_error("task_type is required"@)),
        r matches Err(e) ==> e@.0 == ErrorKind::Validation || e@.0 == ErrorKind::Database,
        trim_spec(task_type@).len() > 0 ==> (r matches Err(e) ==> e@.0 == ErrorKind::Database),
        r matches Ok(id) ==> id@.len() == 36,
        final(db).path_view() == old(db).path_view(),
        old(db).ops().is_prefix_of(final(db).ops()),
        trim_spec(task_type@).len() == 0 ==> final(db).ops() == old(db).ops(),
        r matches Ok(id) ==> {
            let n = old(db).ops().len() as int;
            &&& final(db).ops().len() == n + 2
            &&& task_inserted_at(final(db).ops(), n, id@, task_type@, input_json@)
            &&& logged_at(final(db).ops(), n + 1, id@, "info"@, "task queued"@)
        },
{
    if trim_str(task_type).as_str().is_empty() {
        return Err(validation("task_type is required"));
    }
    let task_id = db.insert_task(task_type, input_json)?;
    db.append_log(task_id.as_str(), "info", "task queued")?;
    Ok(task_id)
}

/// What a task run answers: its id, `success` or `failed`, and the JSON
/// output or the error message.
#[derive(Debug)]
pub struct TaskRunResponse {
    pub task_id: String,
    pub status: String,
    pub output: Option<String>,
    pub error: Option<String>,
}

/// Records how a task run ended (its JSON output, or the error message, also
/// logged as `task failed: ...`) and gives the answer to the run.
pub fn finish_task_run(db: &mut Db, task_id: String, outcome: Result<String, String>) -> (r: Result<TaskRunResponse, AppError>)
    ensures
        r matches Ok(resp) ==> resp.task_id@ == task_id@ && match outcome {
            Ok(out) => resp.status@ == "success"@ && opt_view(resp.output) == Some(out@) && resp.error is None,
            Err(m) => resp.status@ == "failed"@ && resp.output is None && opt_view(resp.error) == Some(m@),
        },
        r matches Err(e) ==> e@.0 == ErrorKind::Database,
        final(db).path_view() == old(db).path_view(),
        old(db).ops().is_prefix_of(final(db).ops()),
        r is Ok ==> {
            let n = old(db).ops().len() as int;
            let f = final(db).ops();
            &&& f.len() == n + 2
            &&& match outcome {
                Ok(out) => f[n] == StoreOp::Execute(SQL_TASK_SUCCEEDED@,
                        seq![text_arg(task_id@), text_arg("success"@), text_arg(out@), text_arg(stamp(f[n]))])
                    && logged_at(f, n + 1, task_id@, "info"@, "task success"@),
                Err(m) => f[n] == StoreOp::Execute(SQL_TASK_FAILED@,
                        seq![text_arg(task_id@), text_arg("failed"@), text_arg(m@), text_arg(stamp(f[n]))])
                    && logged_at(f, n + 1, task_id@, "error"@, "task failed: "@ + m@),
            }
        },
{
    match outcome {
        Ok(output_json) => {
            db.update_task_success(task_id.as_str(), output_json.as_str())?;
            db.append_log(task_id.as_str(), "info", "task success")?;
            Ok(TaskRunResponse { task_id, status: "success".to_owned(), output: Some(output_json), error: None })
        },
        Err(message) => {
            db.update_task_failure(task_id.as_str(), message.as_str())?;
            let mut line = chars_of("task failed: ");
            extend_str(&mut line, message.as_str());
            let text = string_from_chars(&line);
            db.append_log(task_id.as_str(), "error", text.as_str())?;
            Ok(TaskRunResponse { task_id, status: "failed".to_owned(), output: None, error: Some(message) })
        },
    }
}

/// The most recent tasks, at most `limit` (50 by default, kept within 1..=500).
pub fn task_list(db: &mut Db, limit: Option<u32>) -> (r: Result<Vec<TaskSummary>, AppError>)
    ensures
        final(db).path_view() == old(db).path_view(),
        old(db).ops().is_prefix_of(final(db).ops()),
        r matches Ok(v) ==> asked(old(db).ops(), final(db).ops(), crate::statements::SQL_LIST_TASKS@,
            seq![SqlArg::Integer(clamp_spec(limit, 50, 1, 500) as i64)])
            && crate::rows::task_summaries_from_rows(answer(final(db).ops()), v@),
        r matches Err(e) ==> e@.0 == ErrorKind::Database,
{
    db.list_tasks(clamp_or_default(limit, 50, 1, 500))
}

/// The page a batch listing shows: 1 by default, at least 1.
pub open spec fn page_spec(page: Option<u32>) -> u32 {
    match page {
        Some(p) => if p < 1 { 1 } else { p },
        None => 1,
    }
}

/// The page and page size a batch listing uses: page 1 by default and at
/// least 1; 10 per page by default, kept within 1..=100.
pub fn batch_page_request(page: Option<u32>, page_size: Option<u32>) -> (r: (u32, u32))
    ensures
        r.0 == page_spec(page),
        r.1 == clamp_spec(page_size, 10, 1, 100),
{
    let p = match page {
        Some(p) => if p < 1 { 1 } else { p },
        None => 1,
    };
    (p, clamp_or_default(page_size, 10, 1, 100))
}

/// One page of download batches.
pub fn download_batch_list(db: &mut Db, page: Option<u32>, page_size: Option<u32>) -> (r: Result<DownloadBatchListResult, AppError>)
    ensures
        final(db).path_view() == old(db).path_view(),
        r matches Ok(res) ==> crate::database::batch_page_read(old(db).ops(), final(db).ops(), page_spec(page), clamp_spec(page_size, 10, 1, 100), res),
        r matches Err(e) ==> e@.0 == ErrorKind::Database,
{
    let (p, n) = batch_page_request(page, page_size);
    db.list_download_batches(p, n)
}

/// A download batch with its tasks; a blank id or an unknown batch is refused.
pub fn download_batch_detail(db: &mut Db, batch_id: &str) -> (r: Result<DownloadBatchDetail, AppError>)
    ensures
        trim_spec(batch_id@).len() == 0 ==> (r matches Err(e) && e@ == validation_error("batch_id is required"@)),
        final(db).path_view() == old(db).path_view(),
        old(db).ops().is_prefix_of(final(db).ops()),
        trim_spec(batch_id@).len() == 0 ==> final(db).ops() == old(db).ops(),
        r matches Ok(d) ==> batch_detail_read(old(db).ops(), final(db).ops(), trim_spec(batch_id@), d),
        trim_spec(batch_id@).len() > 0 && (r matches Err(e) && e@ == validation_error("download batch not found"@)) ==> {
            let n = old(db).ops().len() as int;
            &&& final(db).ops().len() == n + 1
            &&& final(db).ops()[n] == StoreOp::Query(crate::statements::SQL_BATCH_BY_ID@, seq![text_arg(trim_spec(batch_id@))], Some(reply(final(db).ops()[n])))
            &&& reply(final(db).ops()[n]).len() == 0
        },
        r matches Err(e) ==> e@.0 == ErrorKind::Database || e@ == validation_error("batch_id is required"@)
            || e@ == validation_error("download batch not found"@),
        trim_spec(batch_id@).len() > 0 ==> (r matches Err(e) ==> e@.0 == ErrorKind::Database
            || e@ == validation_error("download batch not found"@)),
{
    let trimmed = required_id(batch_id, "batch_id is required")?;
    match db.get_download_batch_detail(trimmed.as_str())? {
        Some(d) => Ok(d),
        None => Err(validation("download batch not found")),
    }
}

/// The known tasks among `task_ids`, with their logs: none for no ids; more
/// than 100 ids are refused.
pub fn task_batch_details(db: &mut Db, task_ids: &Vec<String>) -> (r: Result<Vec<TaskDetail>, AppError>)
    ensures
        task_ids@.len() == 0 ==> (r matches Ok(v) && v@.len() == 0),
        task_ids@.len() > 100 ==> (r matches Err(e) && e@ == validation_error("task_batch_details cannot query more than 100 task ids"@)),
        r matches Ok(v) ==> v@.len() <= task_ids@.len(),
        final(db).path_view() == old(db).path_view(),
        old(db).ops().is_prefix_of(final(db).ops()),
        task_ids@.len() == 0 || task_ids@.len() > 100 ==> final(db).ops() == old(db).ops(),
        r matches Ok(v) ==> forall|k: int| 0 <= k < v@.len() ==> #[trigger] detail_found(final(db).ops(), old(db).ops().len() as int, task_ids@, v@[k]),
        r matches Err(e) ==> e@.0 == ErrorKind::Database || e@ == validation_error("task_batch_details cannot query more than 100 task ids"@),
        task_ids@.len() <= 100 ==> (r matches Err(e) ==> e@.0 == ErrorKind::Database),
{
    if task_ids.len() == 0 {
        return Ok(Vec::new());
    }
    if task_ids.len() > 100 {
        return Err(validation("task_batch_details cannot query more than 100 task ids"));
    }
    db.get_task_batch_details(task_ids)
}

/// A task with its input, output and log; a blank id or an unknown task is
/// refused.
pub fn task_detail(db: &mut Db, task_id: &str) -> (r: Result<TaskRecord, AppError>)
    ensures
        trim_spec(task_id@).len() == 0 ==> (r matches Err(e) && e@ == validation_error("task_id is required"@)),
        r matches Err(e) ==> e@.0 == ErrorKind::Database || e@ == validation_error("task_id is required"@)
            || e@ == validation_error("task not found"@),
        final(db).path_view() == old(db).path_view(),
        old(db).ops().is_prefix_of(final(db).ops()),
        trim_spec(task_id@).len() == 0 ==> final(db).ops() == old(db).ops(),
        r matches Ok(t) ==> t.input_json is Some && task_record_read(old(db).ops(), final(db).ops(), trim_spec(task_id@), t),
        trim_spec(task_id@).len() > 0 && (r matches Err(e) && e@ == validation_error("task not found"@)) ==> {
            let n = old(db).ops().len() as int;
            &&& final(db).ops().len() == n + 1
            &&& final(db).ops()[n] == StoreOp::Query(crate::statements::SQL_TASK_RECORD_BY_ID@, seq![text_arg(trim_spec(task_id@))], Some(reply(final(db).ops()[n])))
            &&& reply(final(db).ops()[n]).len() == 0
        },
        trim_spec(task_id@).len() > 0 ==> (r matches Err(e) ==> e@.0 == ErrorKind::Database
            || e@ == validation_error("task not found"@)),
{
    let trimmed = required_id(task_id, "task_id is required")?;
    match db.get_task_detail(trimmed.as_str())? {
        Some(t) => Ok(t),
        None => Err(validation("task not found")),
    }
}

} // verus!
