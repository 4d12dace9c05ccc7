//! The SQLite store: settings, tasks and their logs, download batches,
//! recording accounts and their logs. Every method states the statements it
//! hands to SQLite, with their parameters (the store's record of them, in
//! `store`), and how its answer is read from the rows they gave; what the
//! rows hold depends on the file.

use vstd::prelude::*;
use rusqlite::Connection;
use crate::error::{AppError, ErrorKind, database, validation, validation_error};
use crate::sqlite::SqlValue;
use crate::external::{now_rfc3339, new_uuid};
use crate::text::{opt_view, trim_str, trim_spec};
use crate::schema::{
    MIGRATIONS_TABLE, MIGRATION_001_INIT, MIGRATION_002_DOWNLOAD_BATCHES,
    MIGRATION_003_RECORDING_ACCOUNTS, MIGRATION_004_RECORDING_ACCOUNT_RULES,
};
use crate::rows::{
    retryable_ids_spec, runs_from_rows, accounts_from_rows, task_summaries_from_rows, task_record_row, task_detail_row,
    text_at, opt_text_at, int_at, u32_at, decode_task_summaries, decode_task_logs, decode_account_logs,
    decode_recording_account, decode_recording_accounts, decode_recording_runs, retryable_task_ids,
    batch_task_items, batch_stats_from_rows,
};
use crate::models::{
    TaskSummary, TaskLogEntry, TaskDetail, TaskRecord, DownloadBatchSummary, DownloadBatchListResult, DownloadBatchCompletion,
    DownloadBatchDetail, DownloadBatchTaskItem, RecordingAccountItem, RecordingAccountLogEntry,
    RecordingRunItem, RecordingAccountCreatePayload, RecordingAccountUpdatePayload,
};
use crate::batch::{
    summarize_batch_task_items, derive_batch_status, effective_total, item_statuses, count_class,
    StatusClass, status_of_tasks, batch_status_text, lemma_status_from_counts, law_each_task_counted_once,
};
use crate::rows::{batch_statuses, rows_view, text_cell, opt_text_cell, u32_cell};
pub use crate::store::Db;
use crate::statements::{
    SqlArg, StoreOp, arg_view, args_view, text_arg, opt_arg, flag_arg, reply, stamp, fresh_id, ran, asked, answer, tried, arg_text,
    migration_end, applied_at, lemma_prefix_index, lemma_prefix_trans,
    SQL_MIGRATION_APPLIED, SQL_RECORD_MIGRATION, SQL_INSERT_TASK, SQL_INSERT_BATCH, SQL_TASK_SUCCEEDED,
    SQL_SET_TASK_STATUS, SQL_TASK_FAILED, SQL_APPEND_TASK_LOG, SQL_LIST_TASKS, SQL_COUNT_BATCHES, SQL_LIST_BATCHES,
    SQL_VIDEO_DOWNLOAD_STATUSES, SQL_ALL_TASK_ITEMS, SQL_BATCH_BY_ID, SQL_TASK_LOGS, SQL_TASK_SUMMARY_BY_ID,
    SQL_TASK_RECORD_BY_ID, SQL_TASK_STATUS_BY_ID, SQL_RETRY_CANDIDATES, SQL_RESET_BATCH, SQL_GET_META, SQL_SET_META,
    SQL_LIST_ACCOUNTS, SQL_LIST_ACCOUNT_LOGS, SQL_ACCOUNT_LOGS_FOR, SQL_ACCOUNT_BY_ID, SQL_FIND_DUPLICATE_ACCOUNT,
    SQL_FIND_OTHER_DUPLICATE_ACCOUNT, SQL_INSERT_ACCOUNT, SQL_UPDATE_ACCOUNT, SQL_SET_ACCOUNT_ENABLED,
    SQL_DELETE_ACCOUNT_LOGS, SQL_DELETE_ACCOUNT, SQL_APPEND_ACCOUNT_LOG, SQL_ACCOUNT_CHECK_RESULT,
    SQL_LIST_ENABLED_ACCOUNTS, SQL_LIST_RUNS, SQL_ACTIVE_RUNS, SQL_FAIL_RUN, SQL_RUN_WARNING, SQL_ACCOUNT_STARTED,
    SQL_ACCOUNT_FINISHED, SQL_ACCOUNT_ENABLED_FLAG, SQL_COUNT_BATCH_TASK, SQL_BATCH_PROGRESS, SQL_MARK_BATCH_COMPLETED,
};

verus! {


fn txt(s: &str) -> (v: SqlValue)
    ensures
        v matches SqlValue::Text(t) && t@ == s@,
        arg_view(v) == text_arg(s@),
{
    SqlValue::Text(s.to_owned())
}

fn opt_txt(o: &Option<String>) -> (v: SqlValue)
    ensures
        match o {
            Some(s) => v matches SqlValue::Text(t) && t@ == s@,
            None => v is Null,
        },
        arg_view(v) == opt_arg(opt_view(*o)),
{
    match o {
        Some(s) => SqlValue::Text(s.clone()),
        None => SqlValue::Null,
    }
}

fn owned(s: String) -> (v: SqlValue)
    ensures
        v matches SqlValue::Text(t) && t@ == s@,
        arg_view(v) == text_arg(s@),
{
    SqlValue::Text(s)
}

fn no_params() -> (p: Vec<SqlValue>)
    ensures
        args_view(p@) == Seq::<SqlArg>::empty(),
        p@.len() == 0,
{
    let p = Vec::new();
    assert(args_view(p@) =~= Seq::<SqlArg>::empty());
    p
}

fn flag(b: bool) -> (v: SqlValue)
    ensures
        v == SqlValue::Integer(if b { 1 } else { 0 }),
        arg_view(v) == flag_arg(b),
{
    SqlValue::Integer(if b {
        1
    } else {
        0
    })
}

/// The error of a single-row query that found no row.
pub open spec fn no_rows_error() -> (ErrorKind, Seq<char>) {
    (ErrorKind::Database, "Query returned no rows"@)
}

fn single_row(rows: Vec<Vec<SqlValue>>) -> (r: Result<Vec<SqlValue>, AppError>)
    ensures
        r is Ok <==> rows@.len() > 0,
        r matches Ok(row) ==> row == rows@[0],
        r matches Err(e) ==> e@ == no_rows_error(),
{
    let mut rows = rows;
    if rows.len() == 0 {
        return Err(database("Query returned no rows"));
    }
    Ok(rows.swap_remove(0))
}

fn first_text(rows: &Vec<Vec<SqlValue>>) -> (r: Result<Option<String>, AppError>)
    requires
        forall|i: int| 0 <= i < rows@.len() ==> (#[trigger] rows@[i])@.len() == 1,
    ensures
        rows@.len() == 0 ==> r matches Ok(None),
        rows@.len() > 0 ==> (r is Ok <==> crate::rows::text_cell(rows@[0]@[0]) is Some),
        rows@.len() > 0 ==> (r matches Ok(v) ==> opt_view(v) == crate::rows::text_cell(rows@[0]@[0])),
        r matches Err(e) ==> e@.0 == ErrorKind::Database,
{
    if rows.len() == 0 {
        return Ok(None);
    }
    Ok(Some(text_at(&rows[0], 0)?))
}

/// The columns read for a recording account.
pub const ACCOUNT_COLUMNS: &'static str = "id, platform, account_input, account_name, account_uid, account_avatar_url,
              account_room_id, account_web_rid, account_sec_user_id, account_unique_id,
              auto_start, retry_on_disconnect, split_recording, save_snapshot,
              enabled, status, last_checked_at, last_recorded_at, last_error, created_at, updated_at";

/// The number of rows before page `page` (from 1) of `page_size` rows,
/// capped at the largest `u32`.
pub open spec fn page_offset_spec(page: u32, page_size: u32) -> u32 {
    if (page - 1) * page_size <= u32::MAX {
        ((page - 1) * page_size) as u32
    } else {
        u32::MAX
    }
}

/// The number of rows before page `page` (from 1) of `page_size` rows,
/// capped at the largest `u32`.
pub fn page_offset(page: u32, page_size: u32) -> (r: u32)
    requires
        page >= 1,
    ensures
        r == page_offset_spec(page, page_size),
{
    let a: u64 = (page - 1) as u64;
    let b: u64 = page_size as u64;
    assert(a * b <= 0xffff_ffff * 0xffff_ffff) by (nonlinear_arith)
        requires
            a <= 0xffff_ffff,
            b <= 0xffff_ffff,
    ;
    let p: u64 = a * b;
    if p > 0xffff_ffff {
        0xffff_ffff
    } else {
        p as u32
    }
}

/// `raw` holds the listed columns of batch row `row`: id, platform, total,
/// created, updated and completed times.
pub open spec fn raw_batch_row(row: Seq<SqlValue>, raw: (String, String, u32, String, String, Option<String>)) -> bool {
    &&& text_cell(row[0]) == Some(raw.0@)
    &&& text_cell(row[1]) == Some(raw.1@)
    &&& u32_cell(row[2]) == Some(raw.2)
    &&& text_cell(row[5]) == Some(raw.3@)
    &&& text_cell(row[6]) == Some(raw.4@)
    &&& opt_text_cell(row[7]) == Some(opt_view(raw.5))
}

/// Summary `b` shows the batch read into `raw`, its total at least the stored one.
pub open spec fn summary_of_raw(b: DownloadBatchSummary, raw: (String, String, u32, String, String, Option<String>)) -> bool {
    &&& b.id@ == raw.0@
    &&& b.platform@ == raw.1@
    &&& b.total_count >= raw.2
    &&& b.created_at@ == raw.3@
    &&& b.updated_at@ == raw.4@
    &&& opt_view(b.completed_at) == opt_view(raw.5)
}

/// Summary `b` shows the batch stored in `row` (id, platform, times), with a
/// total at least the stored one.
pub open spec fn listed_row(row: Seq<SqlValue>, b: DownloadBatchSummary) -> bool {
    &&& text_cell(row[0]) == Some(b.id@)
    &&& text_cell(row[1]) == Some(b.platform@)
    &&& (u32_cell(row[2]) matches Some(t) && b.total_count >= t)
    &&& text_cell(row[5]) == Some(b.created_at@)
    &&& text_cell(row[6]) == Some(b.updated_at@)
    &&& opt_text_cell(row[7]) == Some(opt_view(b.completed_at))
}

/// The summaries show the listed batch rows, one each, in order.
pub open spec fn listed_batches(rows: Seq<Seq<SqlValue>>, items: Seq<DownloadBatchSummary>) -> bool {
    &&& items.len() == rows.len()
    &&& forall|k: int| 0 <= k < items.len() ==> #[trigger] listed_row(rows[k], items[k])
}

/// The value a single-column query gave: the text of its first row, none
/// when it gave no row.
pub open spec fn first_value(rows: Seq<Seq<SqlValue>>) -> Option<Seq<char>> {
    if rows.len() == 0 {
        None
    } else {
        text_cell(rows[0][0])
    }
}

/// `logs` are the log lines the rows hold, one per row, in order.
pub open spec fn logs_from_rows(rows: Seq<Seq<SqlValue>>, logs: Seq<TaskLogEntry>) -> bool {
    &&& logs.len() == rows.len()
    &&& forall|k: int| 0 <= k < logs.len() ==> crate::rows::task_log_row(rows[k], #[trigger] logs[k])
}

/// `items` are the tasks of batch `batch_id` among the rows, in row order.
pub open spec fn batch_items_of(rows: Seq<Seq<SqlValue>>, batch_id: Seq<char>, items: Seq<DownloadBatchTaskItem>) -> bool {
    let sel = crate::rows::batch_rows(rows, 3, batch_id);
    &&& items.len() == sel.len()
    &&& forall|k: int| 0 <= k < sel.len() ==> crate::rows::batch_item_row(sel[k], #[trigger] items[k])
}

/// Detail `d` shows the batch stored in `row` (id, platform, times), with a
/// total at least the stored one.
pub open spec fn batch_detail_row(row: Seq<SqlValue>, d: DownloadBatchDetail) -> bool {
    &&& text_cell(row[0]) == Some(d.id@)
    &&& text_cell(row[1]) == Some(d.platform@)
    &&& (u32_cell(row[2]) matches Some(t) && d.total_count >= t)
    &&& text_cell(row[5]) == Some(d.created_at@)
    &&& text_cell(row[6]) == Some(d.updated_at@)
    &&& opt_text_cell(row[7]) == Some(opt_view(d.completed_at))
}

/// `logs` are the account log lines the rows hold, one per row, in order.
pub open spec fn account_logs_from_rows(rows: Seq<Seq<SqlValue>>, logs: Seq<RecordingAccountLogEntry>) -> bool {
    &&& logs.len() == rows.len()
    &&& forall|k: int| 0 <= k < logs.len() ==> crate::rows::account_log_row(rows[k], #[trigger] logs[k])
}

/// The text a value holds (empty for anything else).
pub open spec fn text_of(v: SqlValue) -> Seq<char> {
    match v {
        SqlValue::Text(t) => t@,
        _ => seq![],
    }
}

/// The query that looks for an account with the same platform and input:
/// the one that leaves out a given account when `excluding` holds.
pub open spec fn duplicate_query(excluding: bool) -> Seq<char> {
    if excluding {
        SQL_FIND_OTHER_DUPLICATE_ACCOUNT@
    } else {
        SQL_FIND_DUPLICATE_ACCOUNT@
    }
}

/// Its parameters: platform, input, and the account left out when given.
pub open spec fn duplicate_args(platform: Seq<char>, input: Seq<char>, exclude: Option<Seq<char>>) -> Seq<SqlArg> {
    match exclude {
        Some(id) => seq![text_arg(platform), text_arg(input), text_arg(id)],
        None => seq![text_arg(platform), text_arg(input)],
    }
}

/// The account fields after the id, as stored: text fields trimmed, the
/// optional ones as given, the switches as 1 or 0, then the time.
pub open spec fn account_field_args(
    platform: Seq<char>, input: Seq<char>, name: Seq<char>, uid: Seq<char>,
    avatar: Option<String>, room: Option<String>, web: Option<String>, sec: Option<String>, unique: Option<String>,
    auto_start: bool, retry: bool, split: bool, snapshot: bool, at: Seq<char>,
) -> Seq<SqlArg> {
    seq![
        text_arg(trim_spec(platform)), text_arg(trim_spec(input)), text_arg(trim_spec(name)), text_arg(trim_spec(uid)),
        opt_arg(opt_view(avatar)), opt_arg(opt_view(room)), opt_arg(opt_view(web)), opt_arg(opt_view(sec)), opt_arg(opt_view(unique)),
        flag_arg(auto_start), flag_arg(retry), flag_arg(split), flag_arg(snapshot), text_arg(at),
    ]
}

/// The parameters of a new account's row: its id, then its fields.
pub open spec fn new_account_args(p: RecordingAccountCreatePayload, id: Seq<char>, at: Seq<char>) -> Seq<SqlArg> {
    seq![text_arg(id)] + account_field_args(p.platform@, p.account_input@, p.account_name@, p.account_uid@,
        p.account_avatar_url, p.account_room_id, p.account_web_rid, p.account_sec_user_id, p.account_unique_id,
        p.auto_start, p.retry_on_disconnect, p.split_recording, p.save_snapshot, at)
}

/// The parameters of a changed account's row: its trimmed id, then its fields.
pub open spec fn changed_account_args(p: RecordingAccountUpdatePayload, at: Seq<char>) -> Seq<SqlArg> {
    seq![text_arg(trim_spec(p.account_id@))] + account_field_args(p.platform@, p.account_input@, p.account_name@, p.account_uid@,
        p.account_avatar_url, p.account_room_id, p.account_web_rid, p.account_sec_user_id, p.account_unique_id,
        p.auto_start, p.retry_on_disconnect, p.split_recording, p.save_snapshot, at)
}

/// At position `k` of `ops` run `run_id` is marked failed with `reason`, and
/// at `k + 1` the warning `reason` is added to its log, both stamped with
/// the same time.
pub open spec fn stale_run_marked(ops: Seq<StoreOp>, k: int, run_id: Seq<char>, reason: Seq<char>) -> bool {
    &&& 0 <= k && k + 1 < ops.len()
    &&& ops[k] == StoreOp::Execute(SQL_FAIL_RUN@, seq![text_arg(run_id), text_arg(reason), text_arg(stamp(ops[k]))])
    &&& ops[k + 1] == StoreOp::Execute(SQL_RUN_WARNING@,
        seq![text_arg(fresh_id(ops[k + 1])), text_arg(run_id), text_arg(reason), text_arg(stamp(ops[k]))])
}

/// From position `n` of `ops` on, one of the ids is asked for and found as
/// `d` (`detail_read_at`).
pub open spec fn detail_found(ops: Seq<StoreOp>, n: int, ids: Seq<String>, d: TaskDetail) -> bool {
    exists|a: int, j: int| 0 <= a < ids.len() && n <= j && #[trigger] detail_read_at(ops, j, ids[a]@, d)
}

/// At position `j` of `ops` task `id` is asked for and found as `d`, and at
/// `j + 1` its log is asked for and read into `d`.
pub open spec fn detail_read_at(ops: Seq<StoreOp>, j: int, id: Seq<char>, d: TaskDetail) -> bool {
    &&& 0 <= j && j + 1 < ops.len()
    &&& ops[j] == StoreOp::Query(SQL_TASK_SUMMARY_BY_ID@, seq![text_arg(id)], Some(reply(ops[j])))
    &&& reply(ops[j]).len() > 0
    &&& task_detail_row(reply(ops[j])[0], d)
    &&& ops[j + 1] == StoreOp::Query(SQL_TASK_LOGS@, seq![text_arg(id)], Some(reply(ops[j + 1])))
    &&& logs_from_rows(reply(ops[j + 1]), d.logs@)
}

/// `after` is `before` with batch `batch_id` asked for and found as `d`, then
/// the stored tasks asked for and those of the batch read into `d`, whose
/// counts and status come from them.
pub open spec fn batch_detail_read(before: Seq<StoreOp>, after: Seq<StoreOp>, batch_id: Seq<char>, d: DownloadBatchDetail) -> bool {
    let n = before.len() as int;
    &&& after.len() == n + 2
    &&& after[n] == StoreOp::Query(SQL_BATCH_BY_ID@, seq![text_arg(batch_id)], Some(reply(after[n])))
    &&& reply(after[n]).len() > 0
    &&& batch_detail_row(reply(after[n])[0], d)
    &&& after.last() == StoreOp::Query(SQL_ALL_TASK_ITEMS@, seq![], Some(answer(after)))
    &&& batch_items_of(answer(after), batch_id, d.tasks@)
    &&& detail_counts_match(d)
}

/// `after` is `before` with task `task_id` asked for and found as `t`, then
/// its log asked for and read into `t`.
pub open spec fn task_record_read(before: Seq<StoreOp>, after: Seq<StoreOp>, task_id: Seq<char>, t: TaskRecord) -> bool {
    let n = before.len() as int;
    &&& after.len() == n + 2
    &&& after[n] == StoreOp::Query(SQL_TASK_RECORD_BY_ID@, seq![text_arg(task_id)], Some(reply(after[n])))
    &&& reply(after[n]).len() > 0
    &&& task_record_row(reply(after[n])[0], t)
    &&& after.last() == StoreOp::Query(SQL_TASK_LOGS@, seq![text_arg(task_id)], Some(answer(after)))
    &&& logs_from_rows(answer(after), t.logs@)
}

/// At position `k` of `ops` a task `id` of type `task_type` is stored,
/// queued, with input `input`.
pub open spec fn task_inserted_at(ops: Seq<StoreOp>, k: int, id: Seq<char>, task_type: Seq<char>, input: Seq<char>) -> bool {
    &&& 0 <= k < ops.len()
    &&& ops[k] == StoreOp::Execute(SQL_INSERT_TASK@,
        seq![text_arg(id), text_arg(task_type), text_arg("queued"@), text_arg(input), text_arg(stamp(ops[k]))])
}

/// At position `k` of `ops` the line `message` at `level` is added to the
/// log of task `id`.
pub open spec fn logged_at(ops: Seq<StoreOp>, k: int, id: Seq<char>, level: Seq<char>, message: Seq<char>) -> bool {
    &&& 0 <= k < ops.len()
    &&& ops[k] == StoreOp::Execute(SQL_APPEND_TASK_LOG@,
        seq![text_arg(fresh_id(ops[k])), text_arg(id), text_arg(level), text_arg(message), text_arg(stamp(ops[k]))])
}

/// At position `k` of `ops` task `id` is given status `status`.
pub open spec fn status_set_at(ops: Seq<StoreOp>, k: int, id: Seq<char>, status: Seq<char>) -> bool {
    &&& 0 <= k < ops.len()
    &&& ops[k] == StoreOp::Execute(SQL_SET_TASK_STATUS@, seq![text_arg(id), text_arg(status), text_arg(stamp(ops[k]))])
}

/// At position `k` of `ops` task `id` is marked failed with `message`.
pub open spec fn task_failed_at(ops: Seq<StoreOp>, k: int, id: Seq<char>, message: Seq<char>) -> bool {
    &&& 0 <= k < ops.len()
    &&& ops[k] == StoreOp::Execute(SQL_TASK_FAILED@, seq![text_arg(id), text_arg("failed"@), text_arg(message), text_arg(stamp(ops[k]))])
}

/// At position `k` of `ops` setting `key` is stored as `value`.
pub open spec fn meta_set_at(ops: Seq<StoreOp>, k: int, key: Seq<char>, value: Seq<char>) -> bool {
    &&& 0 <= k < ops.len()
    &&& ops[k] == StoreOp::Execute(SQL_SET_META@, seq![text_arg(key), text_arg(value), text_arg(stamp(ops[k]))])
}

/// `after` is `before` with new account `a` stored: no account with its
/// platform and input found, the account inserted under a fresh id, then
/// read back as `a`.
pub open spec fn account_inserted(before: Seq<StoreOp>, after: Seq<StoreOp>, p: RecordingAccountCreatePayload, a: RecordingAccountItem) -> bool {
    let n = before.len() as int;
    let ins = after[n + 1];
    &&& after.len() == n + 3
    &&& after[n] == StoreOp::Query(SQL_FIND_DUPLICATE_ACCOUNT@,
        duplicate_args(trim_spec(p.platform@), trim_spec(p.account_input@), None), Some(reply(after[n])))
    &&& reply(after[n]).len() == 0
    &&& ins == StoreOp::Execute(SQL_INSERT_ACCOUNT@, new_account_args(p, fresh_id(ins), stamp(ins)))
    &&& after[n + 2] == StoreOp::Query(SQL_ACCOUNT_BY_ID@, seq![text_arg(fresh_id(ins))], Some(answer(after)))
    &&& answer(after).len() > 0
    &&& crate::rows::account_row(answer(after)[0], a)
}

/// `after` is `before` with a change of an account stored: no other account
/// with its platform and input found, the account updated, then read back
/// as `a`.
pub open spec fn account_changed(before: Seq<StoreOp>, after: Seq<StoreOp>, p: RecordingAccountUpdatePayload, a: RecordingAccountItem) -> bool {
    let n = before.len() as int;
    let upd = after[n + 1];
    &&& after.len() == n + 3
    &&& after[n] == StoreOp::Query(SQL_FIND_OTHER_DUPLICATE_ACCOUNT@,
        duplicate_args(trim_spec(p.platform@), trim_spec(p.account_input@), Some(trim_spec(p.account_id@))), Some(reply(after[n])))
    &&& reply(after[n]).len() == 0
    &&& upd == StoreOp::Execute(SQL_UPDATE_ACCOUNT@, changed_account_args(p, stamp(upd)))
    &&& after[n + 2] == StoreOp::Query(SQL_ACCOUNT_BY_ID@, seq![text_arg(trim_spec(p.account_id@))], Some(answer(after)))
    &&& answer(after).len() > 0
    &&& crate::rows::account_row(answer(after)[0], a)
}

/// At position `k` of `ops` the line `message` at `level` is added to the
/// log of account `id`.
pub open spec fn account_logged_at(ops: Seq<StoreOp>, k: int, id: Seq<char>, level: Seq<char>, message: Seq<char>) -> bool {
    &&& 0 <= k < ops.len()
    &&& ops[k] == StoreOp::Execute(SQL_APPEND_ACCOUNT_LOG@,
        seq![text_arg(fresh_id(ops[k])), text_arg(id), text_arg(level), text_arg(message), text_arg(stamp(ops[k]))])
}

/// At position `k` of `ops` an account is asked for and found as `a`.
pub open spec fn account_read_at(ops: Seq<StoreOp>, k: int, a: RecordingAccountItem) -> bool {
    &&& 0 <= k < ops.len()
    &&& ops[k] matches StoreOp::Query(sql, _, Some(rows)) && sql == SQL_ACCOUNT_BY_ID@ && rows.len() > 0
        && crate::rows::account_row(rows[0], a)
}

/// Whether the rows of an enabled-flag query show the account enabled: a
/// row whose flag is a number other than 0.
pub open spec fn enabled_value(rows: Seq<Seq<SqlValue>>) -> bool {
    rows.len() > 0 && match crate::rows::int_cell(rows[0][0]) {
        Some(n) => n != 0,
        None => false,
    }
}

/// Completion `c` shows the batch counts stored in `row` (id, platform,
/// total, successes, failures).
pub open spec fn batch_progress_row(row: Seq<SqlValue>, c: DownloadBatchCompletion) -> bool {
    &&& text_cell(row[0]) == Some(c.batch_id@)
    &&& text_cell(row[1]) == Some(c.platform@)
    &&& u32_cell(row[2]) == Some(c.total_count)
    &&& u32_cell(row[3]) == Some(c.success_count)
    &&& u32_cell(row[4]) == Some(c.failed_count)
}

/// Whether the progress rows show a batch whose completion is due: found,
/// not yet handled, and every task counted.
pub open spec fn progress_completes(rows: Seq<Seq<SqlValue>>) -> bool {
    &&& rows.len() > 0
    &&& crate::rows::int_cell(rows[0][5]) == Some(0int)
    &&& u32_cell(rows[0][2]) is Some && u32_cell(rows[0][3]) is Some && u32_cell(rows[0][4]) is Some
    &&& text_cell(rows[0][0]) is Some && text_cell(rows[0][1]) is Some
    &&& crate::batch::batch_complete(u32_cell(rows[0][2]).unwrap() as int, u32_cell(rows[0][3]).unwrap() as int,
        u32_cell(rows[0][4]).unwrap() as int)
}

/// A batch summary shows no more finished and running tasks than its total.
pub open spec fn summary_counts_fit(b: DownloadBatchSummary) -> bool {
    b.success_count + b.failed_count + b.running_count <= b.total_count
}

/// A batch summary's counts and status are those of the batch's tasks among
/// the video-download rows `rows` (status, input document), and its total is
/// at least their number.
pub open spec fn summary_from_rows(b: DownloadBatchSummary, rows: Seq<Seq<SqlValue>>) -> bool {
    let st = batch_statuses(rows, b.id@);
    &&& b.total_count >= st.len()
    &&& b.success_count == count_class(st, StatusClass::Success)
    &&& b.failed_count == count_class(st, StatusClass::Failed)
    &&& b.running_count == count_class(st, StatusClass::Running)
    &&& b.status@ == batch_status_text(status_of_tasks(b.total_count as nat, st))
}

/// Every summary of `items` is as `summary_from_rows` gives it.
pub open spec fn summaries_from_rows(items: Seq<DownloadBatchSummary>, rows: Seq<Seq<SqlValue>>) -> bool {
    forall|k: int| 0 <= k < items.len() ==> #[trigger] summary_from_rows(items[k], rows)
}

/// `after` is `before` with a page of batches read: the number of batches
/// asked for, then page `page` of `page_size` batches, newest first, then
/// (when the page holds any) the status and input of every video download.
/// `res` gives that number, shows the listed batches in order, and counts
/// each one's tasks among the video-download rows.
pub open spec fn batch_page_read(before: Seq<StoreOp>, after: Seq<StoreOp>, page: u32, page_size: u32, res: DownloadBatchListResult) -> bool {
    let n = before.len() as int;
    &&& after.len() >= n + 2
    &&& after[n] == StoreOp::Query(SQL_COUNT_BATCHES@, seq![], Some(reply(after[n])))
    &&& after[n + 1] == StoreOp::Query(SQL_LIST_BATCHES@,
        seq![SqlArg::Integer(page_size as i64), SqlArg::Integer(page_offset_spec(page, page_size) as i64)], Some(reply(after[n + 1])))
    &&& Some(res.total) == u32_cell(reply(after[n])[0][0])
    &&& res.page == page && res.page_size == page_size
    &&& listed_batches(reply(after[n + 1]), res.items@)
    &&& res.items@.len() == 0 ==> after.len() == n + 2
    &&& res.items@.len() > 0 ==> {
        &&& after.len() == n + 3
        &&& after.last() == StoreOp::Query(SQL_VIDEO_DOWNLOAD_STATUSES@, seq![], Some(answer(after)))
        &&& summaries_from_rows(res.items@, answer(after))
    }
    &&& forall|k: int| 0 <= k < res.items@.len() ==> summary_counts_fit(#[trigger] res.items@[k])
}

/// A batch detail's counts and status are those of the tasks it lists, and
/// its total is at least their number.
pub open spec fn detail_counts_match(d: DownloadBatchDetail) -> bool {
    let st = item_statuses(d.tasks@);
    &&& d.total_count >= d.tasks@.len()
    &&& d.success_count == count_class(st, StatusClass::Success)
    &&& d.failed_count == count_class(st, StatusClass::Failed)
    &&& d.running_count == count_class(st, StatusClass::Running)
    &&& d.status@ == batch_status_text(status_of_tasks(d.total_count as nat, st))
}

/// `after` is `before` with the schema set up: the migrations table created,
/// then each migration applied in order where not yet recorded
/// (`applied_at`), and nothing else.
pub open spec fn migrated(before: Seq<StoreOp>, after: Seq<StoreOp>) -> bool {
    let k0 = before.len() as int + 1;
    let k1 = migration_end(after, k0);
    let k2 = migration_end(after, k1);
    let k3 = migration_end(after, k2);
    &&& after.take(before.len() as int) == before
    &&& before.len() < after.len()
    &&& after[before.len() as int] == StoreOp::Script(MIGRATIONS_TABLE@)
    &&& applied_at(after, k0, "001_init"@, MIGRATION_001_INIT@)
    &&& applied_at(after, k1, "002_download_batches"@, MIGRATION_002_DOWNLOAD_BATCHES@)
    &&& applied_at(after, k2, "003_recording_accounts"@, MIGRATION_003_RECORDING_ACCOUNTS@)
    &&& applied_at(after, k3, "004_recording_account_rules"@, MIGRATION_004_RECORDING_ACCOUNT_RULES@)
    &&& after.len() == migration_end(after, k3)
}

impl Db {
    /// Creates the schema: creates the migrations table, then applies, in
    /// order, each migration not yet recorded (see `migrated`).
    pub fn init(&mut self) -> (r: Result<(), AppError>)
        ensures
            final(self).path_view() == old(self).path_view(),
            old(self).ops().is_prefix_of(final(self).ops()),
            r is Ok ==> migrated(old(self).ops(), final(self).ops()),
            r matches Err(e) ==> e@.0 == ErrorKind::Database,
    {
        let conn = self.open()?;
        let ghost before = self.ops();
        self.script(&conn, MIGRATIONS_TABLE)?;
        let ghost (s0, k0) = (self.ops(), self.ops().len() as int);
        let step = self.apply_migration(&conn, "001_init", MIGRATION_001_INIT);
        proof { lemma_prefix_trans(before, s0, self.ops()); }
        step?;
        let ghost (s1, k1) = (self.ops(), self.ops().len() as int);
        let step = self.apply_migration(&conn, "002_download_batches", MIGRATION_002_DOWNLOAD_BATCHES);
        proof { lemma_prefix_trans(before, s1, self.ops()); }
        step?;
        let ghost (s2, k2) = (self.ops(), self.ops().len() as int);
        let step = self.apply_migration(&conn, "003_recording_accounts", MIGRATION_003_RECORDING_ACCOUNTS);
        proof { lemma_prefix_trans(before, s2, self.ops()); }
        step?;
        let ghost (s3, k3) = (self.ops(), self.ops().len() as int);
        let step = self.apply_migration(&conn, "004_recording_account_rules", MIGRATION_004_RECORDING_ACCOUNT_RULES);
        proof { lemma_prefix_trans(before, s3, self.ops()); }
        step?;
        proof {
            let f = self.ops();
            assert(f[before.len() as int] == StoreOp::Script(MIGRATIONS_TABLE@)) by {
                lemma_prefix_index(s0, s1, before.len() as int);
                lemma_prefix_index(s1, s2, before.len() as int);
                lemma_prefix_index(s2, s3, before.len() as int);
                lemma_prefix_index(s3, f, before.len() as int);
            }
            assert forall|i: int| k0 <= i < k1 implies f[i] == s1[i] by {
                lemma_prefix_index(s1, s2, i);
                lemma_prefix_index(s2, s3, i);
                lemma_prefix_index(s3, f, i);
            }
            assert forall|i: int| k1 <= i < k2 implies f[i] == s2[i] by {
                lemma_prefix_index(s2, s3, i);
                lemma_prefix_index(s3, f, i);
            }
            assert forall|i: int| k2 <= i < k3 implies f[i] == s3[i] by {
                lemma_prefix_index(s3, f, i);
            }
            assert forall|i: int| 0 <= i < before.len() implies f[i] == before[i] by {
                lemma_prefix_index(s0, s1, i);
                lemma_prefix_index(s1, s2, i);
                lemma_prefix_index(s2, s3, i);
                lemma_prefix_index(s3, f, i);
            }
            assert(f.take(before.len() as int) =~= before);
        }
        Ok(())
    }

    fn apply_migration(&mut self, conn: &Connection, version: &str, sql: &str) -> (r: Result<(), AppError>)
        ensures
            final(self).path_view() == old(self).path_view(),
            old(self).ops().is_prefix_of(final(self).ops()),
            r is Ok ==> applied_at(final(self).ops(), old(self).ops().len() as int, version@, sql@),
            r is Ok ==> final(self).ops().len() == migration_end(final(self).ops(), old(self).ops().len() as int),
            r matches Err(e) ==> e@.0 == ErrorKind::Database,
    {
        let ghost k = self.ops().len() as int;
        let params = vec![txt(version)];
        proof { assert(args_view(params@) =~= seq![text_arg(version@)]); }
        let rows = self.query(conn, SQL_MIGRATION_APPLIED, params, 1)?;
        let ghost s1 = self.ops();
        let row = single_row(rows)?;
        let exists = int_at(&row, 0)?;
        if exists > 0 {
            return Ok(());
        }
        self.script(conn, sql)?;
        let now = now_rfc3339();
        let params = vec![txt(version), owned(now)];
        let ghost at = self.ops();
        proof { assert(args_view(params@) =~= seq![text_arg(version@), arg_view(params@[1])]); }
        let r = self.exec(conn, SQL_RECORD_MIGRATION, params);
        proof {
            let f = self.ops();
            assert(f[k] == s1[k]);
        }
        r
    }

    /// Records a new queued task with the given JSON input; gives its id (a
    /// fresh UUID).
    pub fn insert_task(&mut self, task_type: &str, input_json: &str) -> (r: Result<String, AppError>)
        ensures
            final(self).path_view() == old(self).path_view(),
            old(self).ops().is_prefix_of(final(self).ops()),
            final(self).ops().len() == old(self).ops().len() + 1,
            r matches Ok(id) ==> id@.len() == 36,
            r matches Ok(id) ==> ran(old(self).ops(), final(self).ops(), SQL_INSERT_TASK@,
                seq![text_arg(id@), text_arg(task_type@), text_arg("queued"@), text_arg(input_json@), text_arg(stamp(final(self).ops().last()))]),
            r matches Err(e) ==> e@.0 == ErrorKind::Database,
    {
        let id = new_uuid();
        let now = now_rfc3339();
        let params = vec![txt(id.as_str()), txt(task_type), txt("queued"), txt(input_json), owned(now)];
        proof { assert(args_view(params@) =~= seq![text_arg(id@), text_arg(task_type@), text_arg("queued"@), text_arg(input_json@), arg_view(params@[4])]); }
        self.exec_on(SQL_INSERT_TASK, params)?;
        Ok(id)
    }

    /// Records a new download batch of `total_count` tasks, nothing counted or
    /// completed yet; gives its id (a fresh UUID).
    pub fn insert_download_batch(&mut self, platform: &str, total_count: u32) -> (r: Result<String, AppError>)
        ensures
            final(self).path_view() == old(self).path_view(),
            old(self).ops().is_prefix_of(final(self).ops()),
            final(self).ops().len() == old(self).ops().len() + 1,
            r matches Ok(id) ==> id@.len() == 36,
            r matches Ok(id) ==> ran(old(self).ops(), final(self).ops(), SQL_INSERT_BATCH@,
                seq![text_arg(id@), text_arg(platform@), SqlArg::Integer(total_count as i64), text_arg(stamp(final(self).ops().last()))]),
            r matches Err(e) ==> e@.0 == ErrorKind::Database,
    {
        let id = new_uuid();
        let now = now_rfc3339();
        let params = vec![txt(id.as_str()), txt(platform), SqlValue::Integer(total_count as i64), owned(now)];
        proof { assert(args_view(params@) =~= seq![text_arg(id@), text_arg(platform@), SqlArg::Integer(total_count as i64), arg_view(params@[3])]); }
        self.exec_on(SQL_INSERT_BATCH, params)?;
        Ok(id)
    }

    /// Marks a task succeeded with the given JSON output, clearing its error.
    pub fn update_task_success(&mut self, task_id: &str, output_json: &str) -> (r: Result<(), AppError>)
        ensures
            final(self).path_view() == old(self).path_view(),
            old(self).ops().is_prefix_of(final(self).ops()),
            ran(old(self).ops(), final(self).ops(), SQL_TASK_SUCCEEDED@,
                seq![text_arg(task_id@), text_arg("success"@), text_arg(output_json@), text_arg(stamp(final(self).ops().last()))]),
            r matches Err(e) ==> e@.0 == ErrorKind::Database,
    {
        let now = now_rfc3339();
        let params = vec![txt(task_id), txt("success"), txt(output_json), owned(now)];
        proof { assert(args_view(params@) =~= seq![text_arg(task_id@), text_arg("success"@), text_arg(output_json@), arg_view(params@[3])]); }
        self.exec_on(SQL_TASK_SUCCEEDED, params)
    }

    /// Sets a task's status.
    pub fn update_task_status(&mut self, task_id: &str, status: &str) -> (r: Result<(), AppError>)
        ensures
            final(self).path_view() == old(self).path_view(),
            old(self).ops().is_prefix_of(final(self).ops()),
            ran(old(self).ops(), final(self).ops(), SQL_SET_TASK_STATUS@,
                seq![text_arg(task_id@), text_arg(status@), text_arg(stamp(final(self).ops().last()))]),
            r matches Err(e) ==> e@.0 == ErrorKind::Database,
    {
        let now = now_rfc3339();
        let params = vec![txt(task_id), txt(status), owned(now)];
        proof { assert(args_view(params@) =~= seq![text_arg(task_id@), text_arg(status@), arg_view(params@[2])]); }
        self.exec_on(SQL_SET_TASK_STATUS, params)
    }

    /// Marks a task failed with the given error.
    pub fn update_task_failure(&mut self, task_id: &str, error_text: &str) -> (r: Result<(), AppError>)
        ensures
            final(self).path_view() == old(self).path_view(),
            old(self).ops().is_prefix_of(final(self).ops()),
            ran(old(self).ops(), final(self).ops(), SQL_TASK_FAILED@,
                seq![text_arg(task_id@), text_arg("failed"@), text_arg(error_text@), text_arg(stamp(final(self).ops().last()))]),
            r matches Err(e) ==> e@.0 == ErrorKind::Database,
    {
        let now = now_rfc3339();
        let params = vec![txt(task_id), txt("failed"), txt(error_text), owned(now)];
        proof { assert(args_view(params@) =~= seq![text_arg(task_id@), text_arg("failed"@), text_arg(error_text@), arg_view(params@[3])]); }
        self.exec_on(SQL_TASK_FAILED, params)
    }

    /// Adds a log line to a task (under a fresh id, stamped with the time).
    pub fn append_log(&mut self, task_id: &str, level: &str, message: &str) -> (r: Result<(), AppError>)
        ensures
            final(self).path_view() == old(self).path_view(),
            old(self).ops().is_prefix_of(final(self).ops()),
            ran(old(self).ops(), final(self).ops(), SQL_APPEND_TASK_LOG@,
                seq![text_arg(fresh_id(final(self).ops().last())), text_arg(task_id@), text_arg(level@), text_arg(message@), text_arg(stamp(final(self).ops().last()))]),
            r matches Err(e) ==> e@.0 == ErrorKind::Database,
    {
        let id = new_uuid();
        let now = now_rfc3339();
        let params = vec![owned(id), txt(task_id), txt(level), txt(message), owned(now)];
        proof { assert(args_view(params@) =~= seq![arg_view(params@[0]), text_arg(task_id@), text_arg(level@), text_arg(message@), arg_view(params@[4])]); }
        self.exec_on(SQL_APPEND_TASK_LOG, params)
    }

    /// The newest `limit` tasks.
    pub fn list_tasks(&mut self, limit: u32) -> (r: Result<Vec<TaskSummary>, AppError>)
        ensures
            final(self).path_view() == old(self).path_view(),
            old(self).ops().is_prefix_of(final(self).ops()),
            r is Ok ==> asked(old(self).ops(), final(self).ops(), SQL_LIST_TASKS@, seq![SqlArg::Integer(limit as i64)]),
            r matches Ok(v) ==> task_summaries_from_rows(answer(final(self).ops()), v@),
            r matches Err(e) ==> e@.0 == ErrorKind::Database,
    {
        let params = vec![SqlValue::Integer(limit as i64)];
        proof { assert(args_view(params@) =~= seq![SqlArg::Integer(limit as i64)]); }
        let rows = self.query_on(SQL_LIST_TASKS, params, 6)?;
        let v = decode_task_summaries(&rows)?;
        assert(task_summaries_from_rows(rows_view(rows@), v@));
        Ok(v)
    }

    /// One page of download batches, newest first, with counts taken from
    /// their tasks. Page numbers start at 1 (0 reads as 1). It asks for the
    /// number of batches, then for the page, then (when the page holds any)
    /// for the status and input of every video download.
    pub fn list_download_batches(&mut self, page: u32, page_size: u32) -> (r: Result<DownloadBatchListResult, AppError>)
        ensures
            final(self).path_view() == old(self).path_view(),
            old(self).ops().is_prefix_of(final(self).ops()),
            r matches Ok(res) ==> batch_page_read(old(self).ops(), final(self).ops(), if page == 0 { 1 } else { page }, page_size, res),
            r matches Err(e) ==> e@.0 == ErrorKind::Database,
    {
        let conn = self.open()?;
        let ghost start = self.ops();
        let safe_page: u32 = if page == 0 { 1 } else { page };
        let offset = page_offset(safe_page, page_size);
        let total_rows = self.query(&conn, SQL_COUNT_BATCHES, no_params(), 1)?;
        let ghost count_rows = rows_view(total_rows@);
        let total_row = single_row(total_rows)?;
        let total = u32_at(&total_row, 0)?;
        let params = vec![SqlValue::Integer(page_size as i64), SqlValue::Integer(offset as i64)];
        proof { assert(args_view(params@) =~= seq![SqlArg::Integer(page_size as i64), SqlArg::Integer(offset as i64)]); }
        let rows = self.query(&conn, SQL_LIST_BATCHES, params, 8)?;
        let ghost listed = self.ops();
        let mut raw: Vec<(String, String, u32, String, String, Option<String>)> = Vec::new();
        let mut i: usize = 0;
        while i < rows.len()
            invariant
                i <= rows@.len(),
                raw@.len() == i,
                forall|k: int| 0 <= k < rows@.len() ==> (#[trigger] rows@[k])@.len() == 8,
                forall|k: int| 0 <= k < i ==> raw_batch_row(rows@[k]@, #[trigger] raw@[k]),
                self.path_view() == old(self).path_view(),
                self.ops() == listed,
                old(self).ops().is_prefix_of(self.ops()),
            decreases rows.len() - i,
        {
            let row = &rows[i];
            raw.push((text_at(row, 0)?, text_at(row, 1)?, u32_at(row, 2)?, text_at(row, 5)?, text_at(row, 6)?, opt_text_at(row, 7)?));
            i += 1;
        }
        let stats_rows = if raw.len() == 0 {
            Vec::new()
        } else {
            self.video_download_status_rows(&conn)?
        };
        let ghost raw0 = raw@;
        let ghost after_stats = self.ops();
        let mut items: Vec<DownloadBatchSummary> = Vec::new();
        let mut raw = raw;
        while raw.len() > 0
            invariant
                stats_rows@.len() <= u32::MAX,
                forall|k: int| 0 <= k < stats_rows@.len() ==> (#[trigger] stats_rows@[k])@.len() == 2,
                forall|k: int| 0 <= k < items@.len() ==> summary_counts_fit(#[trigger] items@[k]),
                forall|k: int| 0 <= k < items@.len() ==> summary_from_rows(#[trigger] items@[k], rows_view(stats_rows@)),
                items@.len() + raw@.len() == raw0.len(),
                forall|k: int| 0 <= k < raw@.len() ==> #[trigger] raw@[k] == raw0[items@.len() + k],
                forall|k: int| 0 <= k < items@.len() ==> summary_of_raw(#[trigger] items@[k], raw0[k]),
                self.path_view() == old(self).path_view(),
                self.ops() == after_stats,
                old(self).ops().is_prefix_of(self.ops()),
            decreases raw.len(),
        {
            let ghost n = items@.len();
            let (id, platform, total_count, created_at, updated_at, completed_at) = raw.remove(0);
            let stats = batch_stats_from_rows(&stats_rows, id.as_str())?;
            let eff = effective_total(total_count, stats);
            proof {
                law_each_task_counted_once(batch_statuses(rows_view(stats_rows@), id@));
                lemma_status_from_counts(eff as nat, stats, batch_statuses(rows_view(stats_rows@), id@));
            }
            items.push(DownloadBatchSummary {
                id,
                platform,
                status: derive_batch_status(eff, stats),
                total_count: eff,
                success_count: stats.success_count,
                failed_count: stats.failed_count,
                running_count: stats.running_count,
                created_at,
                updated_at,
                completed_at,
            });
            proof {
                assert(summary_of_raw(items@[n as int], raw0[n as int]));
            }
        }
        let res = DownloadBatchListResult { items, total, page: safe_page, page_size };
        proof {
            let f = self.ops();
            lemma_prefix_index(listed, f, start.len() as int);
            lemma_prefix_index(listed, f, start.len() as int + 1);
            assert(summaries_from_rows(res.items@, rows_view(stats_rows@)));
            assert forall|k: int| 0 <= k < res.items@.len() implies listed_row(rows_view(rows@)[k], #[trigger] res.items@[k]) by {
                assert(raw_batch_row(rows@[k]@, raw0[k]));
            }
        }
        Ok(res)
    }

    /// Status and input of every video-download task, oldest first.
    fn video_download_status_rows(&mut self, conn: &Connection) -> (r: Result<Vec<Vec<SqlValue>>, AppError>)
        ensures
            final(self).path_view() == old(self).path_view(),
            final(self).ops().len() == old(self).ops().len() + 1,
            old(self).ops().is_prefix_of(final(self).ops()),
            r matches Ok(rows) ==> asked(old(self).ops(), final(self).ops(), SQL_VIDEO_DOWNLOAD_STATUSES@, seq![])
                && answer(final(self).ops()) == rows_view(rows@),
            r matches Ok(rows) ==> rows@.len() <= u32::MAX && forall|k: int| 0 <= k < rows@.len() ==> (#[trigger] rows@[k])@.len() == 2,
            r matches Err(e) ==> e@.0 == ErrorKind::Database,
    {
        let rows = self.query(conn, SQL_VIDEO_DOWNLOAD_STATUSES, no_params(), 2)?;
        if rows.len() > 0xffff_ffff {
            return Err(database("too many tasks to count"));
        }
        Ok(rows)
    }

    /// Every task of batch `batch_id`, oldest first.
    fn list_tasks_for_batch(&mut self, conn: &Connection, batch_id: &str) -> (r: Result<Vec<DownloadBatchTaskItem>, AppError>)
        ensures
            final(self).path_view() == old(self).path_view(),
            old(self).ops().is_prefix_of(final(self).ops()),
            final(self).ops().len() == old(self).ops().len() + 1,
            r matches Ok(items) ==> asked(old(self).ops(), final(self).ops(), SQL_ALL_TASK_ITEMS@, seq![])
                && batch_items_of(answer(final(self).ops()), batch_id@, items@),
            r matches Err(e) ==> e@.0 == ErrorKind::Database,
    {
        let rows = self.query(conn, SQL_ALL_TASK_ITEMS, no_params(), 8)?;
        batch_task_items(&rows, batch_id)
    }

    /// A download batch with its tasks and counts taken from them; none when
    /// no batch has that id. It asks for the batch, then (when found) for the
    /// stored tasks, and keeps those of the batch.
    pub fn get_download_batch_detail(&mut self, batch_id: &str) -> (r: Result<Option<DownloadBatchDetail>, AppError>)
        ensures
            final(self).path_view() == old(self).path_view(),
            old(self).ops().is_prefix_of(final(self).ops()),
            r is Ok ==> final(self).ops().len() > old(self).ops().len(),
            r is Ok ==> final(self).ops()[old(self).ops().len() as int] == StoreOp::Query(SQL_BATCH_BY_ID@, seq![text_arg(batch_id@)],
                Some(reply(final(self).ops()[old(self).ops().len() as int]))),
            r matches Ok(None) ==> final(self).ops().len() == old(self).ops().len() + 1
                && reply(final(self).ops()[old(self).ops().len() as int]).len() == 0,
            r matches Ok(Some(d)) ==> batch_detail_read(old(self).ops(), final(self).ops(), batch_id@, d),
            r matches Err(e) ==> e@.0 == ErrorKind::Database,
    {
        let conn = self.open()?;
        let ghost n = self.ops().len() as int;
        let params = vec![txt(batch_id)];
        proof { assert(args_view(params@) =~= seq![text_arg(batch_id@)]); }
        let rows = self.query(&conn, SQL_BATCH_BY_ID, params, 8)?;
        let ghost s1 = self.ops();
        if rows.len() == 0 {
            return Ok(None);
        }
        let row = &rows[0];
        let id = text_at(row, 0)?;
        let platform = text_at(row, 1)?;
        let total_count = u32_at(row, 2)?;
        let created_at = text_at(row, 5)?;
        let updated_at = text_at(row, 6)?;
        let completed_at = opt_text_at(row, 7)?;
        let tasks = self.list_tasks_for_batch(&conn, batch_id)?;
        if tasks.len() > 0xffff_ffff {
            return Err(database("too many tasks to count"));
        }
        let stats = summarize_batch_task_items(&tasks, total_count);
        let eff = effective_total(total_count, stats);
        proof {
            lemma_status_from_counts(eff as nat, stats, item_statuses(tasks@));
            lemma_prefix_index(s1, self.ops(), n);
        }
        Ok(Some(DownloadBatchDetail {
            id,
            platform,
            status: derive_batch_status(eff, stats),
            total_count: eff,
            success_count: stats.success_count,
            failed_count: stats.failed_count,
            running_count: stats.running_count,
            created_at,
            updated_at,
            completed_at,
            tasks,
        }))
    }

    /// The log of task `task_id`, oldest first.
    fn task_logs(&mut self, conn: &Connection, task_id: &str) -> (r: Result<Vec<TaskLogEntry>, AppError>)
        ensures
            final(self).path_view() == old(self).path_view(),
            old(self).ops().is_prefix_of(final(self).ops()),
            final(self).ops().len() == old(self).ops().len() + 1,
            r matches Ok(v) ==> asked(old(self).ops(), final(self).ops(), SQL_TASK_LOGS@, seq![text_arg(task_id@)])
                && logs_from_rows(answer(final(self).ops()), v@),
            r matches Err(e) ==> e@.0 == ErrorKind::Database,
    {
        let params = vec![txt(task_id)];
        proof { assert(args_view(params@) =~= seq![text_arg(task_id@)]); }
        let rows = self.query(conn, SQL_TASK_LOGS, params, 4)?;
        decode_task_logs(&rows)
    }

    /// The tasks with the given ids, in the order given, each with its log;
    /// unknown ids are skipped. For each id it asks for the task, then (when
    /// found) for its log.
    pub fn get_task_batch_details(&mut self, task_ids: &Vec<String>) -> (r: Result<Vec<TaskDetail>, AppError>)
        ensures
            final(self).path_view() == old(self).path_view(),
            old(self).ops().is_prefix_of(final(self).ops()),
            r matches Ok(v) ==> v@.len() <= task_ids@.len(),
            r matches Ok(v) ==> forall|k: int| 0 <= k < v@.len() ==> #[trigger] detail_found(final(self).ops(), old(self).ops().len() as int, task_ids@, v@[k]),
            r matches Err(e) ==> e@.0 == ErrorKind::Database,
    {
        let conn = self.open()?;
        let ghost n = self.ops().len() as int;
        let mut details: Vec<TaskDetail> = Vec::new();
        let mut i: usize = 0;
        while i < task_ids.len()
            invariant
                i <= task_ids@.len(),
                details@.len() <= i,
                self.path_view() == old(self).path_view(),
                old(self).ops().is_prefix_of(self.ops()),
                n == old(self).ops().len(),
                forall|k: int| 0 <= k < details@.len() ==> #[trigger] detail_found(self.ops(), n, task_ids@, details@[k]),
            decreases task_ids.len() - i,
        {
            let ghost before = self.ops();
            let ghost old_details = details@;
            let task_id = task_ids[i].as_str();
            let params = vec![txt(task_id)];
            proof { assert(args_view(params@) =~= seq![text_arg(task_id@)]); }
            let rows = self.query(&conn, SQL_TASK_SUMMARY_BY_ID, params, 6)?;
            let ghost mid = self.ops();
            if rows.len() > 0 {
                let t = crate::rows::decode_task_summary(&rows[0])?;
                let logs = self.task_logs(&conn, task_id)?;
                let d = TaskDetail {
                    id: t.id,
                    task_type: t.task_type,
                    status: t.status,
                    created_at: t.created_at,
                    updated_at: t.updated_at,
                    error_text: t.error_text,
                    logs,
                };
                assert(task_detail_row(rows@[0]@, d));
                proof {
                    let j = before.len() as int;
                    assert(detail_read_at(self.ops(), j, task_ids@[i as int]@, d));
                }
                details.push(d);
            }
            proof {
                assert forall|k: int| 0 <= k < details@.len() implies #[trigger] detail_found(self.ops(), n, task_ids@, details@[k]) by {
                    if k < old_details.len() {
                        assert(details@[k] == old_details[k]);
                        assert(detail_found(before, n, task_ids@, old_details[k]));
                        let (a, j) = choose|a: int, j: int| 0 <= a < task_ids@.len() && n <= j && #[trigger] detail_read_at(before, j, task_ids@[a]@, old_details[k]);
                        lemma_prefix_index(before, self.ops(), j);
                        lemma_prefix_index(before, self.ops(), j + 1);
                        assert(detail_read_at(self.ops(), j, task_ids@[a]@, details@[k]));
                    } else {
                        assert(detail_read_at(self.ops(), before.len() as int, task_ids@[i as int]@, details@[k]));
                    }
                }
            }
            i += 1;
        }
        Ok(details)
    }

    /// A task with its stored input and output documents and its log; none
    /// when no task has that id. It asks for the task, then (when found) for
    /// its log.
    pub fn get_task_detail(&mut self, task_id: &str) -> (r: Result<Option<TaskRecord>, AppError>)
        ensures
            final(self).path_view() == old(self).path_view(),
            old(self).ops().is_prefix_of(final(self).ops()),
            r is Ok ==> final(self).ops().len() > old(self).ops().len(),
            r is Ok ==> final(self).ops()[old(self).ops().len() as int] == StoreOp::Query(SQL_TASK_RECORD_BY_ID@, seq![text_arg(task_id@)],
                Some(reply(final(self).ops()[old(self).ops().len() as int]))),
            r matches Ok(None) ==> final(self).ops().len() == old(self).ops().len() + 1
                && reply(final(self).ops()[old(self).ops().len() as int]).len() == 0,
            r matches Ok(Some(t)) ==> task_record_read(old(self).ops(), final(self).ops(), task_id@, t),
            r matches Err(e) ==> e@.0 == ErrorKind::Database,
    {
        let conn = self.open()?;
        let ghost n = self.ops().len() as int;
        let params = vec![txt(task_id)];
        proof { assert(args_view(params@) =~= seq![text_arg(task_id@)]); }
        let rows = self.query(&conn, SQL_TASK_RECORD_BY_ID, params, 8)?;
        let ghost s1 = self.ops();
        if rows.len() == 0 {
            return Ok(None);
        }
        let row = &rows[0];
        let input = text_at(row, 6)?;
        let output_json = opt_text_at(row, 7)?;
        let id = text_at(row, 0)?;
        let task_type = text_at(row, 1)?;
        let status = text_at(row, 2)?;
        let created_at = text_at(row, 3)?;
        let updated_at = text_at(row, 4)?;
        let error_text = opt_text_at(row, 5)?;
        let logs = self.task_logs(&conn, task_id)?;
        let record = TaskRecord {
            id,
            task_type,
            status,
            created_at,
            updated_at,
            error_text,
            input_json: Some(input),
            output_json,
            logs,
        };
        proof {
            lemma_prefix_index(s1, self.ops(), n);
        }
        assert(task_record_row(row@, record));
        Ok(Some(record))
    }

    /// A task's status; none when no task has that id.
    pub fn get_task_status(&mut self, task_id: &str) -> (r: Result<Option<String>, AppError>)
        ensures
            final(self).path_view() == old(self).path_view(),
            old(self).ops().is_prefix_of(final(self).ops()),
            tried(old(self).ops(), final(self).ops(), SQL_TASK_STATUS_BY_ID@, seq![text_arg(task_id@)]),
            r matches Ok(v) ==> asked(old(self).ops(), final(self).ops(), SQL_TASK_STATUS_BY_ID@, seq![text_arg(task_id@)])
                && opt_view(v) == first_value(answer(final(self).ops())),
            r is Err ==> first_value(answer(final(self).ops())) is None,
            r matches Err(e) ==> e@.0 == ErrorKind::Database,
    {
        let params = vec![txt(task_id)];
        proof { assert(args_view(params@) =~= seq![text_arg(task_id@)]); }
        let rows = self.query_on(SQL_TASK_STATUS_BY_ID, params, 1)?;
        first_text(&rows)
    }

    /// The ids of the queued video downloads of batch `batch_id`, oldest first:
    /// of the stored task rows, those of type `video.download`, status
    /// `queued` and a JSON input whose `batchId` is `batch_id`.
    pub fn list_retryable_download_task_ids_for_batch(&mut self, batch_id: &str) -> (r: Result<Vec<String>, AppError>)
        ensures
            final(self).path_view() == old(self).path_view(),
            old(self).ops().is_prefix_of(final(self).ops()),
            final(self).ops().len() == old(self).ops().len() + 1,
            r matches Ok(ids) ==> asked(old(self).ops(), final(self).ops(), SQL_RETRY_CANDIDATES@, seq![])
                && crate::submit::views(ids@) == retryable_ids_spec(answer(final(self).ops()), batch_id@),
            r matches Err(e) ==> e@.0 == ErrorKind::Database,
    {
        let rows = self.query_on(SQL_RETRY_CANDIDATES, no_params(), 4)?;
        retryable_task_ids(&rows, batch_id)
    }

    /// Clears a batch's counts and completion so that it can run again.
    pub fn reset_download_batch_for_retry(&mut self, batch_id: &str) -> (r: Result<(), AppError>)
        ensures
            final(self).path_view() == old(self).path_view(),
            old(self).ops().is_prefix_of(final(self).ops()),
            ran(old(self).ops(), final(self).ops(), SQL_RESET_BATCH@,
                seq![text_arg(batch_id@), text_arg(stamp(final(self).ops().last()))]),
            r matches Err(e) ==> e@.0 == ErrorKind::Database,
    {
        let now = now_rfc3339();
        let params = vec![txt(batch_id), owned(now)];
        proof { assert(args_view(params@) =~= seq![text_arg(batch_id@), arg_view(params@[1])]); }
        self.exec_on(SQL_RESET_BATCH, params)
    }

    /// The stored value of a setting; none when unset.
    pub fn get_meta(&mut self, key: &str) -> (r: Result<Option<String>, AppError>)
        ensures
            final(self).path_view() == old(self).path_view(),
            old(self).ops().is_prefix_of(final(self).ops()),
            tried(old(self).ops(), final(self).ops(), SQL_GET_META@, seq![text_arg(key@)]),
            r matches Ok(v) ==> asked(old(self).ops(), final(self).ops(), SQL_GET_META@, seq![text_arg(key@)])
                && opt_view(v) == first_value(answer(final(self).ops())),
            r is Err ==> first_value(answer(final(self).ops())) is None,
            r matches Err(e) ==> e@.0 == ErrorKind::Database,
    {
        let params = vec![txt(key)];
        proof { assert(args_view(params@) =~= seq![text_arg(key@)]); }
        let rows = self.query_on(SQL_GET_META, params, 1)?;
        first_text(&rows)
    }

    /// Stores a setting, replacing its old value (stamped with the time).
    pub fn set_meta(&mut self, key: &str, value: &str) -> (r: Result<(), AppError>)
        ensures
            final(self).path_view() == old(self).path_view(),
            old(self).ops().is_prefix_of(final(self).ops()),
            ran(old(self).ops(), final(self).ops(), SQL_SET_META@,
                seq![text_arg(key@), text_arg(value@), text_arg(stamp(final(self).ops().last()))]),
            r matches Err(e) ==> e@.0 == ErrorKind::Database,
    {
        let now = now_rfc3339();
        let params = vec![txt(key), txt(value), owned(now)];
        proof { assert(args_view(params@) =~= seq![text_arg(key@), text_arg(value@), arg_view(params@[2])]); }
        self.exec_on(SQL_SET_META, params)
    }

    /// Every recording account, newest first.
    pub fn list_recording_accounts(&mut self) -> (r: Result<Vec<RecordingAccountItem>, AppError>)
        ensures
            final(self).path_view() == old(self).path_view(),
            old(self).ops().is_prefix_of(final(self).ops()),
            tried(old(self).ops(), final(self).ops(), SQL_LIST_ACCOUNTS@, Seq::<SqlArg>::empty()),
            r matches Ok(v) ==> asked(old(self).ops(), final(self).ops(), SQL_LIST_ACCOUNTS@, Seq::<SqlArg>::empty())
                && accounts_from_rows(answer(final(self).ops()), v@),
            r matches Err(e) ==> e@.0 == ErrorKind::Database,
    {
        let params = no_params();
        proof { assert(args_view(params@) =~= Seq::<SqlArg>::empty()); }
        let rows = self.query_on(SQL_LIST_ACCOUNTS, params, 21)?;
        let v = decode_recording_accounts(&rows)?;
        assert(accounts_from_rows(rows_view(rows@), v@));
        Ok(v)
    }

    /// The newest `limit` log lines of all accounts.
    pub fn list_recording_account_logs(&mut self, limit: u32) -> (r: Result<Vec<RecordingAccountLogEntry>, AppError>)
        ensures
            final(self).path_view() == old(self).path_view(),
            old(self).ops().is_prefix_of(final(self).ops()),
            tried(old(self).ops(), final(self).ops(), SQL_LIST_ACCOUNT_LOGS@, seq![SqlArg::Integer(limit as i64)]),
            r matches Ok(v) ==> asked(old(self).ops(), final(self).ops(), SQL_LIST_ACCOUNT_LOGS@, seq![SqlArg::Integer(limit as i64)])
                && account_logs_from_rows(answer(final(self).ops()), v@),
            r matches Err(e) ==> e@.0 == ErrorKind::Database,
    {
        let params = vec![SqlValue::Integer(limit as i64)];
        proof { assert(args_view(params@) =~= seq![SqlArg::Integer(limit as i64)]); }
        let rows = self.query_on(SQL_LIST_ACCOUNT_LOGS, params, 4)?;
        decode_account_logs(&rows)
    }

    /// The newest `limit` log lines of one account.
    pub fn list_recording_logs_for_account(&mut self, account_id: &str, limit: u32) -> (r: Result<Vec<RecordingAccountLogEntry>, AppError>)
        ensures
            final(self).path_view() == old(self).path_view(),
            old(self).ops().is_prefix_of(final(self).ops()),
            tried(old(self).ops(), final(self).ops(), SQL_ACCOUNT_LOGS_FOR@, seq![text_arg(account_id@), SqlArg::Integer(limit as i64)]),
            r matches Ok(v) ==> asked(old(self).ops(), final(self).ops(), SQL_ACCOUNT_LOGS_FOR@, seq![text_arg(account_id@), SqlArg::Integer(limit as i64)])
                && account_logs_from_rows(answer(final(self).ops()), v@),
            r matches Err(e) ==> e@.0 == ErrorKind::Database,
    {
        let params = vec![txt(account_id), SqlValue::Integer(limit as i64)];
        proof { assert(args_view(params@) =~= seq![text_arg(account_id@), SqlArg::Integer(limit as i64)]); }
        let rows = self.query_on(SQL_ACCOUNT_LOGS_FOR, params, 4)?;
        decode_account_logs(&rows)
    }

    /// The account with id `account_id`, if any.
    pub fn get_recording_account(&mut self, account_id: &str) -> (r: Result<Option<RecordingAccountItem>, AppError>)
        ensures
            final(self).path_view() == old(self).path_view(),
            old(self).ops().is_prefix_of(final(self).ops()),
            tried(old(self).ops(), final(self).ops(), SQL_ACCOUNT_BY_ID@, seq![text_arg(account_id@)]),
            r matches Ok(v) ==> asked(old(self).ops(), final(self).ops(), SQL_ACCOUNT_BY_ID@, seq![text_arg(account_id@)])
                && (v is None <==> answer(final(self).ops()).len() == 0)
                && (v matches Some(a) ==> crate::rows::account_row(answer(final(self).ops())[0], a)),
            r matches Err(e) ==> e@.0 == ErrorKind::Database,
    {
        let params = vec![txt(account_id)];
        proof { assert(args_view(params@) =~= seq![text_arg(account_id@)]); }
        let rows = self.query_on(SQL_ACCOUNT_BY_ID, params, 21)?;
        if rows.len() == 0 {
            return Ok(None);
        }
        Ok(Some(decode_recording_account(&rows[0])?))
    }

    /// Whether another account has the platform and input (compared without
    /// case and surrounding space), leaving out `exclude_id` when given.
    fn duplicate_account(&mut self, conn: &Connection, platform: &str, account_input: &str, exclude_id: Option<&str>) -> (r: Result<bool, AppError>)
        ensures
            final(self).path_view() == old(self).path_view(),
            old(self).ops().is_prefix_of(final(self).ops()),
            final(self).ops().len() == old(self).ops().len() + 1,
            r matches Ok(b) ==> asked(old(self).ops(), final(self).ops(), duplicate_query(exclude_id is Some),
                duplicate_args(platform@, account_input@, match exclude_id { Some(id) => Some(id@), None => None }))
                && b == (answer(final(self).ops()).len() > 0),
            r matches Err(e) ==> e@.0 == ErrorKind::Database,
    {
        let rows = match exclude_id {
            None => {
                let params = vec![txt(platform), txt(account_input)];
                proof { assert(args_view(params@) =~= seq![text_arg(platform@), text_arg(account_input@)]); }
                self.query(conn, SQL_FIND_DUPLICATE_ACCOUNT, params, 1)?
            },
            Some(id) => {
                let params = vec![txt(platform), txt(account_input), txt(id)];
                proof { assert(args_view(params@) =~= seq![text_arg(platform@), text_arg(account_input@), text_arg(id@)]); }
                self.query(conn, SQL_FIND_OTHER_DUPLICATE_ACCOUNT, params, 1)?
            },
        };
        Ok(first_text(&rows)?.is_some())
    }

    /// Adds an account (fields trimmed, enabled, `watching`); refuses an
    /// account whose platform and input (compared without case and
    /// surrounding space) another account already has. It asks for such an
    /// account; when none, inserts the new one under a fresh id and reads it
    /// back.
    pub fn insert_recording_account(&mut self, payload: &RecordingAccountCreatePayload) -> (r: Result<RecordingAccountItem, AppError>)
        ensures
            final(self).path_view() == old(self).path_view(),
            old(self).ops().is_prefix_of(final(self).ops()),
            r matches Err(e) ==> e@.0 == ErrorKind::Database || e@ == validation_error("recording account already exists"@),
            (r is Ok || (r matches Err(e) && e@.0 == ErrorKind::Validation)) ==> {
                let n = old(self).ops().len() as int;
                &&& final(self).ops().len() > n
                &&& final(self).ops()[n] == StoreOp::Query(SQL_FIND_DUPLICATE_ACCOUNT@,
                    duplicate_args(trim_spec(payload.platform@), trim_spec(payload.account_input@), None), Some(reply(final(self).ops()[n])))
            },
            r matches Err(e) && e@.0 == ErrorKind::Validation ==> final(self).ops().len() == old(self).ops().len() + 1
                && reply(final(self).ops()[old(self).ops().len() as int]).len() > 0,
            r matches Ok(a) ==> account_inserted(old(self).ops(), final(self).ops(), *payload, a),
    {
        let conn = self.open()?;
        let ghost n = self.ops().len() as int;
        let platform = trim_str(payload.platform.as_str());
        let account_input = trim_str(payload.account_input.as_str());
        if self.duplicate_account(&conn, platform.as_str(), account_input.as_str(), None)? {
            return Err(validation("recording account already exists"));
        }
        let ghost s1 = self.ops();
        let id = new_uuid();
        let now = now_rfc3339();
        let params = vec![
            txt(id.as_str()),
            owned(platform),
            owned(account_input),
            owned(trim_str(payload.account_name.as_str())),
            owned(trim_str(payload.account_uid.as_str())),
            opt_txt(&payload.account_avatar_url),
            opt_txt(&payload.account_room_id),
            opt_txt(&payload.account_web_rid),
            opt_txt(&payload.account_sec_user_id),
            opt_txt(&payload.account_unique_id),
            flag(payload.auto_start),
            flag(payload.retry_on_disconnect),
            flag(payload.split_recording),
            flag(payload.save_snapshot),
            owned(now),
        ];
        proof { assert(args_view(params@) =~= new_account_args(*payload, id@, text_of(params@[14]))); }
        self.exec(&conn, SQL_INSERT_ACCOUNT, params)?;
        let ghost s2 = self.ops();
        let found = self.get_recording_account(id.as_str());
        proof {
            if found is Ok {
                lemma_prefix_index(s1, self.ops(), n);
                lemma_prefix_index(s2, self.ops(), n + 1);
            }
        }
        match found {
            Ok(Some(a)) => Ok(a),
            Ok(None) => Err(database("failed to insert recording account")),
            Err(e) => Err(e),
        }
    }

    /// Changes an account (fields trimmed); refuses a change that would give
    /// it the platform and input of another account. It asks for such an
    /// account; when none, updates the account and reads it back.
    pub fn update_recording_account(&mut self, payload: &RecordingAccountUpdatePayload) -> (r: Result<RecordingAccountItem, AppError>)
        ensures
            final(self).path_view() == old(self).path_view(),
            old(self).ops().is_prefix_of(final(self).ops()),
            r matches Err(e) ==> e@.0 == ErrorKind::Database || e@ == validation_error("recording account already exists"@),
            (r is Ok || (r matches Err(e) && e@.0 == ErrorKind::Validation)) ==> {
                let n = old(self).ops().len() as int;
                &&& final(self).ops().len() > n
                &&& final(self).ops()[n] == StoreOp::Query(SQL_FIND_OTHER_DUPLICATE_ACCOUNT@,
                    duplicate_args(trim_spec(payload.platform@), trim_spec(payload.account_input@), Some(trim_spec(payload.account_id@))),
                    Some(reply(final(self).ops()[n])))
            },
            r matches Err(e) && e@.0 == ErrorKind::Validation ==> final(self).ops().len() == old(self).ops().len() + 1
                && reply(final(self).ops()[old(self).ops().len() as int]).len() > 0,
            r matches Ok(a) ==> account_changed(old(self).ops(), final(self).ops(), *payload, a),
    {
        let conn = self.open()?;
        let ghost n = self.ops().len() as int;
        let account_id = trim_str(payload.account_id.as_str());
        let platform = trim_str(payload.platform.as_str());
        let account_input = trim_str(payload.account_input.as_str());
        if self.duplicate_account(&conn, platform.as_str(), account_input.as_str(), Some(account_id.as_str()))? {
            return Err(validation("recording account already exists"));
        }
        let ghost s1 = self.ops();
        let now = now_rfc3339();
        let params = vec![
            txt(account_id.as_str()),
            owned(platform),
            owned(account_input),
            owned(trim_str(payload.account_name.as_str())),
            owned(trim_str(payload.account_uid.as_str())),
            opt_txt(&payload.account_avatar_url),
            opt_txt(&payload.account_room_id),
            opt_txt(&payload.account_web_rid),
            opt_txt(&payload.account_sec_user_id),
            opt_txt(&payload.account_unique_id),
            flag(payload.auto_start),
            flag(payload.retry_on_disconnect),
            flag(payload.split_recording),
            flag(payload.save_snapshot),
            owned(now),
        ];
        proof { assert(args_view(params@) =~= changed_account_args(*payload, text_of(params@[14]))); }
        self.exec(&conn, SQL_UPDATE_ACCOUNT, params)?;
        let ghost s2 = self.ops();
        let found = self.get_recording_account(account_id.as_str());
        proof {
            if found is Ok {
                lemma_prefix_index(s1, self.ops(), n);
                lemma_prefix_index(s2, self.ops(), n + 1);
            }
        }
        match found {
            Ok(Some(a)) => Ok(a),
            Ok(None) => Err(database("failed to update recording account")),
            Err(e) => Err(e),
        }
    }

    /// Enables an account (`watching`) or disables it (`idle`).
    pub fn set_recording_account_enabled(&mut self, account_id: &str, enabled: bool) -> (r: Result<(), AppError>)
        ensures
            final(self).path_view() == old(self).path_view(),
            old(self).ops().is_prefix_of(final(self).ops()),
            ran(old(self).ops(), final(self).ops(), SQL_SET_ACCOUNT_ENABLED@,
                seq![text_arg(account_id@), flag_arg(enabled), text_arg(if enabled { "watching"@ } else { "idle"@ }), text_arg(stamp(final(self).ops().last()))]),
            r matches Err(e) ==> e@.0 == ErrorKind::Database,
    {
        let now = now_rfc3339();
        let params = vec![txt(account_id), flag(enabled), txt(if enabled { "watching" } else { "idle" }), owned(now)];
        proof { assert(args_view(params@) =~= seq![text_arg(account_id@), flag_arg(enabled), text_arg(if enabled { "watching"@ } else { "idle"@ }), arg_view(params@[3])]); }
        self.exec_on(SQL_SET_ACCOUNT_ENABLED, params)
    }

    /// Deletes an account's log, then the account.
    pub fn delete_recording_account(&mut self, account_id: &str) -> (r: Result<(), AppError>)
        ensures
            final(self).path_view() == old(self).path_view(),
            old(self).ops().is_prefix_of(final(self).ops()),
            final(self).ops().len() <= old(self).ops().len() + 2,
            r is Ok ==> final(self).ops() == old(self).ops()
                .push(StoreOp::Execute(SQL_DELETE_ACCOUNT_LOGS@, seq![text_arg(account_id@)]))
                .push(StoreOp::Execute(SQL_DELETE_ACCOUNT@, seq![text_arg(account_id@)])),
            r matches Err(e) ==> e@.0 == ErrorKind::Database,
    {
        let conn = self.open()?;
        let params = vec![txt(account_id)];
        proof { assert(args_view(params@) =~= seq![text_arg(account_id@)]); }
        self.exec(&conn, SQL_DELETE_ACCOUNT_LOGS, params)?;
        let params = vec![txt(account_id)];
        proof { assert(args_view(params@) =~= seq![text_arg(account_id@)]); }
        self.exec(&conn, SQL_DELETE_ACCOUNT, params)
    }

    /// Adds a log line to an account (under a fresh id, stamped with the time).
    pub fn append_recording_account_log(&mut self, account_id: &str, level: &str, message: &str) -> (r: Result<(), AppError>)
        ensures
            final(self).path_view() == old(self).path_view(),
            old(self).ops().is_prefix_of(final(self).ops()),
            ran(old(self).ops(), final(self).ops(), SQL_APPEND_ACCOUNT_LOG@,
                seq![text_arg(fresh_id(final(self).ops().last())), text_arg(account_id@), text_arg(level@), text_arg(message@), text_arg(stamp(final(self).ops().last()))]),
            r matches Err(e) ==> e@.0 == ErrorKind::Database,
    {
        let id = new_uuid();
        let now = now_rfc3339();
        let params = vec![owned(id), txt(account_id), txt(level), txt(message), owned(now)];
        proof { assert(args_view(params@) =~= seq![arg_view(params@[0]), text_arg(account_id@), text_arg(level@), text_arg(message@), arg_view(params@[4])]); }
        self.exec_on(SQL_APPEND_ACCOUNT_LOG, params)
    }

    /// Stores the outcome of a live check: status, room ids (kept when not
    /// given), check time and error.
    pub fn update_recording_account_check_result(
        &mut self,
        account_id: &str,
        status: &str,
        account_room_id: &Option<String>,
        account_web_rid: &Option<String>,
        checked_at: &str,
        error_message: &Option<String>,
    ) -> (r: Result<(), AppError>)
        ensures
            final(self).path_view() == old(self).path_view(),
            old(self).ops().is_prefix_of(final(self).ops()),
            ran(old(self).ops(), final(self).ops(), SQL_ACCOUNT_CHECK_RESULT@,
                seq![text_arg(account_id@), text_arg(status@), opt_arg(opt_view(*account_room_id)), opt_arg(opt_view(*account_web_rid)), text_arg(checked_at@), opt_arg(opt_view(*error_message))]),
            r matches Err(e) ==> e@.0 == ErrorKind::Database,
    {
        let params = vec![txt(account_id), txt(status), opt_txt(account_room_id), opt_txt(account_web_rid), txt(checked_at), opt_txt(error_message)];
        proof { assert(args_view(params@) =~= seq![text_arg(account_id@), text_arg(status@), opt_arg(opt_view(*account_room_id)), opt_arg(opt_view(*account_web_rid)), text_arg(checked_at@), opt_arg(opt_view(*error_message))]); }
        self.exec_on(SQL_ACCOUNT_CHECK_RESULT, params)
    }

    /// Every enabled account, newest first.
    pub fn list_enabled_recording_accounts(&mut self) -> (r: Result<Vec<RecordingAccountItem>, AppError>)
        ensures
            final(self).path_view() == old(self).path_view(),
            old(self).ops().is_prefix_of(final(self).ops()),
            tried(old(self).ops(), final(self).ops(), SQL_LIST_ENABLED_ACCOUNTS@, Seq::<SqlArg>::empty()),
            r matches Ok(v) ==> asked(old(self).ops(), final(self).ops(), SQL_LIST_ENABLED_ACCOUNTS@, Seq::<SqlArg>::empty())
                && accounts_from_rows(answer(final(self).ops()), v@),
            r matches Err(e) ==> e@.0 == ErrorKind::Database,
    {
        let params = no_params();
        proof { assert(args_view(params@) =~= Seq::<SqlArg>::empty()); }
        let rows = self.query_on(SQL_LIST_ENABLED_ACCOUNTS, params, 21)?;
        let v = decode_recording_accounts(&rows)?;
        assert(accounts_from_rows(rows_view(rows@), v@));
        Ok(v)
    }

    /// The newest `limit` recording runs.
    pub fn list_recording_runs(&mut self, limit: u32) -> (r: Result<Vec<RecordingRunItem>, AppError>)
        ensures
            final(self).path_view() == old(self).path_view(),
            old(self).ops().is_prefix_of(final(self).ops()),
            tried(old(self).ops(), final(self).ops(), SQL_LIST_RUNS@, seq![SqlArg::Integer(limit as i64)]),
            r matches Ok(v) ==> asked(old(self).ops(), final(self).ops(), SQL_LIST_RUNS@, seq![SqlArg::Integer(limit as i64)])
                && runs_from_rows(answer(final(self).ops()), v@),
            r matches Err(e) ==> e@.0 == ErrorKind::Database,
    {
        let params = vec![SqlValue::Integer(limit as i64)];
        proof { assert(args_view(params@) =~= seq![SqlArg::Integer(limit as i64)]); }
        let rows = self.query_on(SQL_LIST_RUNS, params, 7)?;
        let v = decode_recording_runs(&rows)?;
        assert(runs_from_rows(rows_view(rows@), v@));
        Ok(v)
    }

    /// The recording runs still marked running, oldest first.
    pub fn list_active_recording_runs(&mut self) -> (r: Result<Vec<RecordingRunItem>, AppError>)
        ensures
            final(self).path_view() == old(self).path_view(),
            old(self).ops().is_prefix_of(final(self).ops()),
            tried(old(self).ops(), final(self).ops(), SQL_ACTIVE_RUNS@, Seq::<SqlArg>::empty()),
            r matches Ok(v) ==> asked(old(self).ops(), final(self).ops(), SQL_ACTIVE_RUNS@, Seq::<SqlArg>::empty())
                && runs_from_rows(answer(final(self).ops()), v@),
            r matches Err(e) ==> e@.0 == ErrorKind::Database,
    {
        let params = no_params();
        proof { assert(args_view(params@) =~= Seq::<SqlArg>::empty()); }
        let rows = self.query_on(SQL_ACTIVE_RUNS, params, 7)?;
        let v = decode_recording_runs(&rows)?;
        assert(runs_from_rows(rows_view(rows@), v@));
        Ok(v)
    }

    /// Marks every run still marked running as failed with `reason`, with a
    /// warning in its log; gives those runs. It asks for the running runs,
    /// then for each, in order, marks it failed and adds the warning (both
    /// stamped with one time).
    pub fn mark_stale_recording_runs_failed(&mut self, reason: &str) -> (r: Result<Vec<RecordingRunItem>, AppError>)
        ensures
            final(self).path_view() == old(self).path_view(),
            old(self).ops().is_prefix_of(final(self).ops()),
            r matches Ok(v) ==> {
                let n = old(self).ops().len() as int;
                &&& final(self).ops().len() == n + 1 + 2 * v@.len()
                &&& final(self).ops()[n] == StoreOp::Query(SQL_ACTIVE_RUNS@, seq![], Some(reply(final(self).ops()[n])))
                &&& runs_from_rows(reply(final(self).ops()[n]), v@)
                &&& forall|k: int| 0 <= k < v@.len() ==> #[trigger] stale_run_marked(final(self).ops(), n + 1 + 2 * k, v@[k].id@, reason@)
            },
            r matches Err(e) ==> e@.0 == ErrorKind::Database,
    {
        let ghost n = self.ops().len() as int;
        let active = self.list_active_recording_runs()?;
        if active.len() == 0 {
            return Ok(active);
        }
        let conn = self.open()?;
        let now = now_rfc3339();
        let ghost s1 = self.ops();
        let mut i: usize = 0;
        while i < active.len()
            invariant
                i <= active@.len(),
                self.path_view() == old(self).path_view(),
                s1.is_prefix_of(self.ops()),
                old(self).ops().is_prefix_of(self.ops()),
                s1.len() == n + 1,
                self.ops().len() == n + 1 + 2 * i,
                forall|k: int| 0 <= k < i ==> #[trigger] stale_run_marked(self.ops(), n + 1 + 2 * k, active@[k].id@, reason@),
            decreases active.len() - i,
        {
            let ghost before = self.ops();
            let id = active[i].id.as_str();
            let params = vec![txt(id), txt(reason), txt(now.as_str())];
            proof { assert(args_view(params@) =~= seq![text_arg(id@), text_arg(reason@), text_arg(now@)]); }
            self.exec(&conn, SQL_FAIL_RUN, params)?;
            let params = vec![owned(new_uuid()), txt(id), txt(reason), txt(now.as_str())];
            proof { assert(args_view(params@) =~= seq![arg_view(params@[0]), text_arg(id@), text_arg(reason@), text_arg(now@)]); }
            self.exec(&conn, SQL_RUN_WARNING, params)?;
            proof {
                assert forall|k: int| 0 <= k < i + 1 implies #[trigger] stale_run_marked(self.ops(), n + 1 + 2 * k, active@[k].id@, reason@) by {
                    if k < i {
                        assert(stale_run_marked(before, n + 1 + 2 * k, active@[k].id@, reason@));
                        lemma_prefix_index(before, self.ops(), n + 1 + 2 * k);
                        lemma_prefix_index(before, self.ops(), n + 2 + 2 * k);
                    }
                }
            }
            i += 1;
        }
        proof {
            lemma_prefix_index(s1, self.ops(), n);
        }
        Ok(active)
    }

    /// Shows an account recording since `started_at`, clearing its error.
    pub fn mark_recording_account_started(&mut self, account_id: &str, started_at: &str) -> (r: Result<(), AppError>)
        ensures
            final(self).path_view() == old(self).path_view(),
            old(self).ops().is_prefix_of(final(self).ops()),
            ran(old(self).ops(), final(self).ops(), SQL_ACCOUNT_STARTED@,
                seq![text_arg(account_id@), text_arg(started_at@)]),
            r matches Err(e) ==> e@.0 == ErrorKind::Database,
    {
        let params = vec![txt(account_id), txt(started_at)];
        proof { assert(args_view(params@) =~= seq![text_arg(account_id@), text_arg(started_at@)]); }
        self.exec_on(SQL_ACCOUNT_STARTED, params)
    }

    /// Shows an account's recording finished at `finished_at`: back to
    /// `watching` when enabled, `idle` otherwise, with the given error.
    pub fn mark_recording_account_finished(&mut self, account_id: &str, finished_at: &str, enabled: bool, last_error: &Option<String>) -> (r: Result<(), AppError>)
        ensures
            final(self).path_view() == old(self).path_view(),
            old(self).ops().is_prefix_of(final(self).ops()),
            ran(old(self).ops(), final(self).ops(), SQL_ACCOUNT_FINISHED@,
                seq![text_arg(account_id@), text_arg(if enabled { "watching"@ } else { "idle"@ }), text_arg(finished_at@), opt_arg(opt_view(*last_error))]),
            r matches Err(e) ==> e@.0 == ErrorKind::Database,
    {
        let params = vec![txt(account_id), txt(if enabled { "watching" } else { "idle" }), txt(finished_at), opt_txt(last_error)];
        proof { assert(args_view(params@) =~= seq![text_arg(account_id@), text_arg(if enabled { "watching"@ } else { "idle"@ }), text_arg(finished_at@), opt_arg(opt_view(*last_error))]); }
        self.exec_on(SQL_ACCOUNT_FINISHED, params)
    }

    /// Whether the account exists and is enabled.
    pub fn is_recording_account_enabled(&mut self, account_id: &str) -> (r: Result<bool, AppError>)
        ensures
            final(self).path_view() == old(self).path_view(),
            old(self).ops().is_prefix_of(final(self).ops()),
            tried(old(self).ops(), final(self).ops(), SQL_ACCOUNT_ENABLED_FLAG@, seq![text_arg(account_id@)]),
            r matches Ok(v) ==> asked(old(self).ops(), final(self).ops(), SQL_ACCOUNT_ENABLED_FLAG@, seq![text_arg(account_id@)])
                && v == enabled_value(answer(final(self).ops())),
            r is Err ==> !enabled_value(answer(final(self).ops())),
            r matches Err(e) ==> e@.0 == ErrorKind::Database,
    {
        let params = vec![txt(account_id)];
        proof { assert(args_view(params@) =~= seq![text_arg(account_id@)]); }
        let rows = self.query_on(SQL_ACCOUNT_ENABLED_FLAG, params, 1)?;
        if rows.len() == 0 {
            return Ok(false);
        }
        Ok(int_at(&rows[0], 0)? != 0)
    }

    /// Counts a finished task of batch `batch_id`, a success or a failure.
    /// When every task of the batch is then counted and its completion was
    /// not handled yet, marks it handled and completed, and gives its
    /// summary; otherwise none.
    pub fn finish_download_batch_task(&mut self, batch_id: &str, success: bool) -> (r: Result<Option<DownloadBatchCompletion>, AppError>)
        ensures
            final(self).path_view() == old(self).path_view(),
            old(self).ops().is_prefix_of(final(self).ops()),
            r matches Err(e) ==> e@.0 == ErrorKind::Database,
            r is Ok ==> {
                let n = old(self).ops().len() as int;
                let f = final(self).ops();
                let rows = reply(f[n + 1]);
                &&& f.len() >= n + 2
                &&& f[n] == StoreOp::Execute(SQL_COUNT_BATCH_TASK@, seq![text_arg(batch_id@),
                    SqlArg::Integer(if success { 1 } else { 0 }), SqlArg::Integer(if success { 0 } else { 1 }), text_arg(stamp(f[n]))])
                &&& f[n + 1] == StoreOp::Query(SQL_BATCH_PROGRESS@, seq![text_arg(batch_id@)], Some(rows))
                &&& match r->Ok_0 {
                    Some(c) => {
                        &&& rows.len() > 0
                        &&& batch_progress_row(rows[0], c)
                        &&& crate::rows::int_cell(rows[0][5]) == Some(0int)
                        &&& crate::batch::batch_complete(c.total_count as int, c.success_count as int, c.failed_count as int)
                        &&& f.len() == n + 3
                        &&& f[n + 2] == StoreOp::Execute(SQL_MARK_BATCH_COMPLETED@, seq![text_arg(batch_id@), text_arg(arg_text(f[n + 2], 1))])
                    },
                    None => f.len() == n + 2 && !progress_completes(rows),
                }
            },
    {
        let conn = self.open()?;
        let ghost n = self.ops().len() as int;
        let now = now_rfc3339();
        let params = vec![txt(batch_id), flag(success), flag(!success), txt(now.as_str())];
        proof {
            assert(args_view(params@) =~= seq![text_arg(batch_id@),
                SqlArg::Integer(if success { 1 } else { 0 }), SqlArg::Integer(if success { 0 } else { 1 }), text_arg(now@)]);
        }
        self.exec(&conn, SQL_COUNT_BATCH_TASK, params)?;
        let params = vec![txt(batch_id)];
        proof { assert(args_view(params@) =~= seq![text_arg(batch_id@)]); }
        let rows = self.query(&conn, SQL_BATCH_PROGRESS, params, 6)?;
        let ghost s2 = self.ops();
        if rows.len() == 0 {
            return Ok(None);
        }
        let row = &rows[0];
        let id = text_at(row, 0)?;
        let platform = text_at(row, 1)?;
        let total_count = u32_at(row, 2)?;
        let success_count = u32_at(row, 3)?;
        let failed_count = u32_at(row, 4)?;
        let handled = int_at(row, 5)?;
        if handled != 0 || !crate::batch::is_batch_complete(total_count, success_count, failed_count) {
            return Ok(None);
        }
        let params = vec![txt(batch_id), txt(now.as_str())];
        proof { assert(args_view(params@) =~= seq![text_arg(batch_id@), text_arg(now@)]); }
        self.exec(&conn, SQL_MARK_BATCH_COMPLETED, params)?;
        proof {
            lemma_prefix_index(s2, self.ops(), n);
            lemma_prefix_index(s2, self.ops(), n + 1);
        }
        Ok(Some(DownloadBatchCompletion { batch_id: id, platform, total_count, success_count, failed_count }))
    }
}

} // verus!
