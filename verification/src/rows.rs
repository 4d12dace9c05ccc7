//! Reading stored rows into records, and the selections the store makes on
//! them (a batch's tasks, the retryable ones, the counts of a batch).

use vstd::prelude::*;
use crate::text::{opt_view, str_eq, chars_of, string_from_chars};
use crate::number::push_decimal;
use crate::error::{AppError, ErrorKind};
use crate::sqlite::SqlValue;
use crate::external::{json_string_field, json_text_field};
use crate::models::{
    TaskRecord, TaskDetail,
    TaskSummary, TaskLogEntry, RecordingAccountItem, RecordingAccountLogEntry, RecordingRunItem,
    DownloadBatchTaskItem,
};
use crate::batch::{BatchTaskStats, apply_task_status, count_class, status_class, StatusClass};

verus! {

/// A text value.
pub open spec fn text_cell(c: SqlValue) -> Option<Seq<char>> {
    match c {
        SqlValue::Text(s) => Some(s@),
        _ => None,
    }
}

/// A text value or NULL.
pub open spec fn opt_text_cell(c: SqlValue) -> Option<Option<Seq<char>>> {
    match c {
        SqlValue::Text(s) => Some(Some(s@)),
        SqlValue::Null => Some(None),
        _ => None,
    }
}

/// An integer value.
pub open spec fn int_cell(c: SqlValue) -> Option<int> {
    match c {
        SqlValue::Integer(n) => Some(n as int),
        _ => None,
    }
}

/// An integer value that fits a `u32`.
pub open spec fn u32_cell(c: SqlValue) -> Option<u32> {
    match c {
        SqlValue::Integer(n) => if 0 <= n <= u32::MAX {
            Some(n as u32)
        } else {
            None
        },
        _ => None,
    }
}

/// The message of the error for a value of the wrong type in column `i`.
pub open spec fn column_error(i: nat) -> (ErrorKind, Seq<char>) {
    (ErrorKind::Database, "unexpected value type in column "@ + crate::number::decimal_spec(i))
}

fn column_err(i: usize) -> (e: AppError)
    ensures
        e@ == column_error(i as nat),
{
    let mut m = chars_of("unexpected value type in column ");
    push_decimal(&mut m, i as u64);
    AppError::Database(string_from_chars(&m))
}

/// Reads a text column.
pub fn text_at(row: &Vec<SqlValue>, i: usize) -> (r: Result<String, AppError>)
    requires
        i < row@.len(),
    ensures
        r matches Err(e) ==> e@.0 == ErrorKind::Database,
        r is Ok <==> text_cell(row@[i as int]) is Some,
        r matches Ok(s) ==> Some(s@) == text_cell(row@[i as int]),
        r matches Err(e) ==> e@ == column_error(i as nat),
{
    match &row[i] {
        SqlValue::Text(s) => Ok(s.clone()),
        _ => Err(column_err(i)),
    }
}

/// Reads a text-or-NULL column.
pub fn opt_text_at(row: &Vec<SqlValue>, i: usize) -> (r: Result<Option<String>, AppError>)
    requires
        i < row@.len(),
    ensures
        r matches Err(e) ==> e@.0 == ErrorKind::Database,
        r is Ok <==> opt_text_cell(row@[i as int]) is Some,
        r matches Ok(s) ==> Some(opt_view(s)) == opt_text_cell(row@[i as int]),
        r matches Err(e) ==> e@ == column_error(i as nat),
{
    match &row[i] {
        SqlValue::Text(s) => Ok(Some(s.clone())),
        SqlValue::Null => Ok(None),
        _ => Err(column_err(i)),
    }
}

/// Reads an integer column.
pub fn int_at(row: &Vec<SqlValue>, i: usize) -> (r: Result<i64, AppError>)
    requires
        i < row@.len(),
    ensures
        r matches Err(e) ==> e@.0 == ErrorKind::Database,
        r is Ok <==> int_cell(row@[i as int]) is Some,
        r matches Ok(n) ==> Some(n as int) == int_cell(row@[i as int]),
        r matches Err(e) ==> e@ == column_error(i as nat),
{
    match &row[i] {
        SqlValue::Integer(n) => Ok(*n),
        _ => Err(column_err(i)),
    }
}

/// Reads a count column (an integer that fits a `u32`).
pub fn u32_at(row: &Vec<SqlValue>, i: usize) -> (r: Result<u32, AppError>)
    requires
        i < row@.len(),
    ensures
        r matches Err(e) ==> e@.0 == ErrorKind::Database,
        r is Ok <==> u32_cell(row@[i as int]) is Some,
        r matches Ok(n) ==> Some(n) == u32_cell(row@[i as int]),
        r matches Err(e) ==> e@ == column_error(i as nat),
{
    match &row[i] {
        SqlValue::Integer(n) => if 0 <= *n && *n <= 0xffff_ffff {
            Ok(*n as u32)
        } else {
            Err(column_err(i))
        },
        _ => Err(column_err(i)),
    }
}

/// Columns: id, task_type, status, created_at, updated_at, error_text.
pub fn decode_task_summary(row: &Vec<SqlValue>) -> (r: Result<TaskSummary, AppError>)
    requires
        row@.len() == 6,
    ensures
        r matches Err(e) ==> e@.0 == ErrorKind::Database,
        r is Ok <==> (forall|i: int| 0 <= i < 5 ==> text_cell(#[trigger] row@[i]) is Some) && opt_text_cell(row@[5]) is Some,
        r matches Ok(t) ==> task_summary_row(row@, t),
{
    Ok(TaskSummary {
        id: text_at(row, 0)?,
        task_type: text_at(row, 1)?,
        status: text_at(row, 2)?,
        created_at: text_at(row, 3)?,
        updated_at: text_at(row, 4)?,
        error_text: opt_text_at(row, 5)?,
    })
}

/// Columns: owner id, level, message, ts.
pub fn decode_task_log(row: &Vec<SqlValue>) -> (r: Result<TaskLogEntry, AppError>)
    requires
        row@.len() == 4,
    ensures
        r matches Err(e) ==> e@.0 == ErrorKind::Database,
        r is Ok <==> forall|i: int| 0 <= i < 4 ==> text_cell(#[trigger] row@[i]) is Some,
        r matches Ok(t) ==> task_log_row(row@, t),
{
    Ok(TaskLogEntry {
        task_id: text_at(row, 0)?,
        level: text_at(row, 1)?,
        message: text_at(row, 2)?,
        ts: text_at(row, 3)?,
    })
}

/// Columns: account id, level, message, ts.
pub fn decode_account_log(row: &Vec<SqlValue>) -> (r: Result<RecordingAccountLogEntry, AppError>)
    requires
        row@.len() == 4,
    ensures
        r matches Err(e) ==> e@.0 == ErrorKind::Database,
        r is Ok <==> forall|i: int| 0 <= i < 4 ==> text_cell(#[trigger] row@[i]) is Some,
        r matches Ok(t) ==> account_log_row(row@, t),
{
    Ok(RecordingAccountLogEntry {
        account_id: text_at(row, 0)?,
        level: text_at(row, 1)?,
        message: text_at(row, 2)?,
        ts: text_at(row, 3)?,
    })
}

/// The recording-account columns: id, platform, account_input, account_name,
/// account_uid, five optional texts (avatar, room, web rid, sec user id,
/// unique id), five flags (auto_start, retry_on_disconnect, split_recording,
/// save_snapshot, enabled), status, three optional texts (last checked,
/// last recorded, last error), created_at, updated_at.
pub open spec fn account_row_typed(row: Seq<SqlValue>) -> bool {
    &&& forall|i: int| 0 <= i < 5 ==> text_cell(#[trigger] row[i]) is Some
    &&& forall|i: int| 5 <= i < 10 ==> opt_text_cell(#[trigger] row[i]) is Some
    &&& forall|i: int| 10 <= i < 15 ==> int_cell(#[trigger] row[i]) is Some
    &&& text_cell(row[15]) is Some
    &&& forall|i: int| 16 <= i < 19 ==> opt_text_cell(#[trigger] row[i]) is Some
    &&& text_cell(row[19]) is Some
    &&& text_cell(row[20]) is Some
}

/// A flag column: any integer other than 0 is set.
pub open spec fn flag_cell(c: SqlValue) -> bool {
    int_cell(c).unwrap() != 0
}

/// `a` is the recording account that `row` holds.
pub open spec fn account_row(row: Seq<SqlValue>, a: RecordingAccountItem) -> bool {
    &&& text_cell(row[0]) == Some(a.id@)
    &&& text_cell(row[1]) == Some(a.platform@)
    &&& text_cell(row[2]) == Some(a.account_input@)
    &&& text_cell(row[3]) == Some(a.account_name@)
    &&& text_cell(row[4]) == Some(a.account_uid@)
    &&& opt_text_cell(row[5]) == Some(opt_view(a.account_avatar_url))
    &&& opt_text_cell(row[6]) == Some(opt_view(a.account_room_id))
    &&& opt_text_cell(row[7]) == Some(opt_view(a.account_web_rid))
    &&& opt_text_cell(row[8]) == Some(opt_view(a.account_sec_user_id))
    &&& opt_text_cell(row[9]) == Some(opt_view(a.account_unique_id))
    &&& a.auto_start == flag_cell(row[10])
    &&& a.retry_on_disconnect == flag_cell(row[11])
    &&& a.split_recording == flag_cell(row[12])
    &&& a.save_snapshot == flag_cell(row[13])
    &&& a.enabled == flag_cell(row[14])
    &&& text_cell(row[15]) == Some(a.status@)
    &&& opt_text_cell(row[16]) == Some(opt_view(a.last_checked_at))
    &&& opt_text_cell(row[17]) == Some(opt_view(a.last_recorded_at))
    &&& opt_text_cell(row[18]) == Some(opt_view(a.last_error))
    &&& text_cell(row[19]) == Some(a.created_at@)
    &&& text_cell(row[20]) == Some(a.updated_at@)
}

/// Reads a recording account.
pub fn decode_recording_account(row: &Vec<SqlValue>) -> (r: Result<RecordingAccountItem, AppError>)
    requires
        row@.len() == 21,
    ensures
        r is Ok <==> account_row_typed(row@),
        r matches Ok(a) ==> account_row(row@, a),
        r matches Err(e) ==> e@.0 == ErrorKind::Database,
{
    let id = text_at(row, 0)?;
    let platform = text_at(row, 1)?;
    let account_input = text_at(row, 2)?;
    let account_name = text_at(row, 3)?;
    let account_uid = text_at(row, 4)?;
    let account_avatar_url = opt_text_at(row, 5)?;
    let account_room_id = opt_text_at(row, 6)?;
    let account_web_rid = opt_text_at(row, 7)?;
    let account_sec_user_id = opt_text_at(row, 8)?;
    let account_unique_id = opt_text_at(row, 9)?;
    let auto_start = int_at(row, 10)? != 0;
    let retry_on_disconnect = int_at(row, 11)? != 0;
    let split_recording = int_at(row, 12)? != 0;
    let save_snapshot = int_at(row, 13)? != 0;
    let enabled = int_at(row, 14)? != 0;
    let status = text_at(row, 15)?;
    let last_checked_at = opt_text_at(row, 16)?;
    let last_recorded_at = opt_text_at(row, 17)?;
    let last_error = opt_text_at(row, 18)?;
    let created_at = text_at(row, 19)?;
    let updated_at = text_at(row, 20)?;
    Ok(RecordingAccountItem {
        id,
        platform,
        account_input,
        account_name,
        account_uid,
        account_avatar_url,
        account_room_id,
        account_web_rid,
        account_sec_user_id,
        account_unique_id,
        auto_start,
        retry_on_disconnect,
        split_recording,
        save_snapshot,
        enabled,
        status,
        last_checked_at,
        last_recorded_at,
        last_error,
        created_at,
        updated_at,
    })
}

/// A string field of an optional JSON document.
pub open spec fn doc_field(doc: Option<Seq<char>>, key: Seq<char>) -> Option<Seq<char>> {
    match doc {
        Some(d) => json_text_field(d, key),
        None => None,
    }
}

/// Reads a string field of an optional JSON document.
pub fn read_doc_field(doc: &Option<String>, key: &str) -> (r: Option<String>)
    ensures
        opt_view(r) == doc_field(opt_view(*doc), key@),
{
    match doc {
        Some(d) => json_string_field(d.as_str(), key),
        None => None,
    }
}

/// A field that reads as empty when absent.
pub open spec fn or_empty(v: Option<Seq<char>>) -> Seq<char> {
    match v {
        Some(s) => s,
        None => seq![],
    }
}

fn unwrap_or_empty(v: Option<String>) -> (r: String)
    ensures
        r@ == or_empty(opt_view(v)),
{
    match v {
        Some(s) => s,
        None => String::new(),
    }
}

/// `it` is the recording run that `row` holds.
pub open spec fn run_row(row: Seq<SqlValue>, it: RecordingRunItem) -> bool {
    let input = text_cell(row[2]);
    let output = opt_text_cell(row[3]).unwrap();
    &&& text_cell(row[0]) == Some(it.id@)
    &&& text_cell(row[1]) == Some(it.status@)
    &&& it.account_id@ == or_empty(doc_field(input, "accountId"@))
    &&& it.platform@ == or_empty(doc_field(input, "platform"@))
    &&& it.account_name@ == or_empty(doc_field(input, "accountName"@))
    &&& opt_text_cell(row[4]) == Some(opt_view(it.error_text))
    &&& text_cell(row[5]) == Some(it.created_at@)
    &&& text_cell(row[6]) == Some(it.updated_at@)
    &&& opt_view(it.output_path) == doc_field(output, "outputPath"@)
}

/// Columns: id, status, input_json, output_json, error_text, created_at,
/// updated_at. The account id, platform and account name come from the input
/// document (empty when missing), the output path from the output document.
pub fn decode_recording_run(row: &Vec<SqlValue>) -> (r: Result<RecordingRunItem, AppError>)
    requires
        row@.len() == 7,
    ensures
        r matches Err(e) ==> e@.0 == ErrorKind::Database,
        r is Ok <==> text_cell(row@[0]) is Some && text_cell(row@[1]) is Some && text_cell(row@[2]) is Some
            && opt_text_cell(row@[3]) is Some && opt_text_cell(row@[4]) is Some
            && text_cell(row@[5]) is Some && text_cell(row@[6]) is Some,
        r matches Ok(it) ==> run_row(row@, it),
{
    let id = text_at(row, 0)?;
    let status = text_at(row, 1)?;
    let input = Some(text_at(row, 2)?);
    let output = opt_text_at(row, 3)?;
    let error_text = opt_text_at(row, 4)?;
    let created_at = text_at(row, 5)?;
    let updated_at = text_at(row, 6)?;
    Ok(RecordingRunItem {
        id,
        account_id: unwrap_or_empty(read_doc_field(&input, "accountId")),
        platform: unwrap_or_empty(read_doc_field(&input, "platform")),
        account_name: unwrap_or_empty(read_doc_field(&input, "accountName")),
        status,
        created_at,
        updated_at,
        error_text,
        output_path: read_doc_field(&output, "outputPath"),
    })
}

/// `t` is the task summary that `row` holds.
pub open spec fn task_summary_row(row: Seq<SqlValue>, t: TaskSummary) -> bool {
    &&& text_cell(row[0]) == Some(t.id@)
    &&& text_cell(row[1]) == Some(t.task_type@)
    &&& text_cell(row[2]) == Some(t.status@)
    &&& text_cell(row[3]) == Some(t.created_at@)
    &&& text_cell(row[4]) == Some(t.updated_at@)
    &&& opt_text_cell(row[5]) == Some(opt_view(t.error_text))
}

/// `v` holds one task summary per row of `rows`, in order.
pub open spec fn task_summaries_from_rows(rows: Seq<Seq<SqlValue>>, v: Seq<TaskSummary>) -> bool {
    rows.len() == v.len() && forall|k: int| 0 <= k < v.len() ==> #[trigger] task_summary_row(rows[k], v[k])
}

/// `d` is the task that `row` holds (id, task_type, status, created_at,
/// updated_at, error_text), with its log.
pub open spec fn task_detail_row(row: Seq<SqlValue>, d: TaskDetail) -> bool {
    &&& text_cell(row[0]) == Some(d.id@)
    &&& text_cell(row[1]) == Some(d.task_type@)
    &&& text_cell(row[2]) == Some(d.status@)
    &&& text_cell(row[3]) == Some(d.created_at@)
    &&& text_cell(row[4]) == Some(d.updated_at@)
    &&& opt_text_cell(row[5]) == Some(opt_view(d.error_text))
}

/// `t` is the task that `row` holds (id, task_type, status, created_at,
/// updated_at, error_text, input_json, output_json).
pub open spec fn task_record_row(row: Seq<SqlValue>, t: TaskRecord) -> bool {
    &&& row.len() == 8
    &&& text_cell(row[0]) == Some(t.id@)
    &&& text_cell(row[1]) == Some(t.task_type@)
    &&& text_cell(row[2]) == Some(t.status@)
    &&& text_cell(row[3]) == Some(t.created_at@)
    &&& text_cell(row[4]) == Some(t.updated_at@)
    &&& opt_text_cell(row[5]) == Some(opt_view(t.error_text))
    &&& t.input_json is Some && text_cell(row[6]) == Some(t.input_json.unwrap()@)
    &&& opt_text_cell(row[7]) == Some(opt_view(t.output_json))
}

/// Reads task summaries, one per row; the first badly typed row is an error.
pub fn decode_task_summaries(rows: &Vec<Vec<SqlValue>>) -> (r: Result<Vec<TaskSummary>, AppError>)
    requires
        forall|i: int| 0 <= i < rows@.len() ==> (#[trigger] rows@[i])@.len() == 6,
    ensures
        r matches Err(e) ==> e@.0 == ErrorKind::Database,
        r matches Ok(v) ==> v@.len() == rows@.len() && forall|k: int| 0 <= k < v@.len() ==> task_summary_row(rows@[k]@, #[trigger] v@[k]),
{
    let mut out: Vec<TaskSummary> = Vec::new();
    let mut i: usize = 0;
    while i < rows.len()
        invariant
            i <= rows@.len(),
            out@.len() == i,
            forall|k: int| 0 <= k < rows@.len() ==> (#[trigger] rows@[k])@.len() == 6,
            forall|k: int| 0 <= k < i ==> task_summary_row(rows@[k]@, #[trigger] out@[k]),
        decreases rows.len() - i,
    {
        let t = decode_task_summary(&rows[i])?;
        out.push(t);
        i += 1;
    }
    Ok(out)
}

/// `t` is the log line that `row` holds.
pub open spec fn task_log_row(row: Seq<SqlValue>, t: TaskLogEntry) -> bool {
    &&& text_cell(row[0]) == Some(t.task_id@)
    &&& text_cell(row[1]) == Some(t.level@)
    &&& text_cell(row[2]) == Some(t.message@)
    &&& text_cell(row[3]) == Some(t.ts@)
}

/// Reads task log lines, one per row.
pub fn decode_task_logs(rows: &Vec<Vec<SqlValue>>) -> (r: Result<Vec<TaskLogEntry>, AppError>)
    requires
        forall|i: int| 0 <= i < rows@.len() ==> (#[trigger] rows@[i])@.len() == 4,
    ensures
        r matches Err(e) ==> e@.0 == ErrorKind::Database,
        r matches Ok(v) ==> v@.len() == rows@.len() && forall|k: int| 0 <= k < v@.len() ==> task_log_row(rows@[k]@, #[trigger] v@[k]),
{
    let mut out: Vec<TaskLogEntry> = Vec::new();
    let mut i: usize = 0;
    while i < rows.len()
        invariant
            i <= rows@.len(),
            out@.len() == i,
            forall|k: int| 0 <= k < rows@.len() ==> (#[trigger] rows@[k])@.len() == 4,
            forall|k: int| 0 <= k < i ==> task_log_row(rows@[k]@, #[trigger] out@[k]),
        decreases rows.len() - i,
    {
        let t = decode_task_log(&rows[i])?;
        out.push(t);
        i += 1;
    }
    Ok(out)
}

/// `t` is the account log line that `row` holds.
pub open spec fn account_log_row(row: Seq<SqlValue>, t: RecordingAccountLogEntry) -> bool {
    &&& text_cell(row[0]) == Some(t.account_id@)
    &&& text_cell(row[1]) == Some(t.level@)
    &&& text_cell(row[2]) == Some(t.message@)
    &&& text_cell(row[3]) == Some(t.ts@)
}

/// Reads account log lines, one per row.
pub fn decode_account_logs(rows: &Vec<Vec<SqlValue>>) -> (r: Result<Vec<RecordingAccountLogEntry>, AppError>)
    requires
        forall|i: int| 0 <= i < rows@.len() ==> (#[trigger] rows@[i])@.len() == 4,
    ensures
        r matches Err(e) ==> e@.0 == ErrorKind::Database,
        r matches Ok(v) ==> v@.len() == rows@.len() && forall|k: int| 0 <= k < v@.len() ==> account_log_row(rows@[k]@, #[trigger] v@[k]),
{
    let mut out: Vec<RecordingAccountLogEntry> = Vec::new();
    let mut i: usize = 0;
    while i < rows.len()
        invariant
            i <= rows@.len(),
            out@.len() == i,
            forall|k: int| 0 <= k < rows@.len() ==> (#[trigger] rows@[k])@.len() == 4,
            forall|k: int| 0 <= k < i ==> account_log_row(rows@[k]@, #[trigger] out@[k]),
        decreases rows.len() - i,
    {
        let t = decode_account_log(&rows[i])?;
        out.push(t);
        i += 1;
    }
    Ok(out)
}

/// Reads recording accounts, one per row.
pub fn decode_recording_accounts(rows: &Vec<Vec<SqlValue>>) -> (r: Result<Vec<RecordingAccountItem>, AppError>)
    requires
        forall|i: int| 0 <= i < rows@.len() ==> (#[trigger] rows@[i])@.len() == 21,
    ensures
        r matches Err(e) ==> e@.0 == ErrorKind::Database,
        r is Ok <==> forall|k: int| 0 <= k < rows@.len() ==> account_row_typed(#[trigger] rows@[k]@),
        r matches Ok(v) ==> v@.len() == rows@.len() && forall|k: int| 0 <= k < v@.len() ==> account_row(rows@[k]@, #[trigger] v@[k]),
{
    let mut out: Vec<RecordingAccountItem> = Vec::new();
    let mut i: usize = 0;
    while i < rows.len()
        invariant
            i <= rows@.len(),
            out@.len() == i,
            forall|k: int| 0 <= k < rows@.len() ==> (#[trigger] rows@[k])@.len() == 21,
            forall|k: int| 0 <= k < i ==> account_row_typed(#[trigger] rows@[k]@),
            forall|k: int| 0 <= k < i ==> account_row(rows@[k]@, #[trigger] out@[k]),
        decreases rows.len() - i,
    {
        let t = decode_recording_account(&rows[i])?;
        out.push(t);
        i += 1;
    }
    Ok(out)
}

/// `v` holds one recording run per row of `rows`, in order.
pub open spec fn runs_from_rows(rows: Seq<Seq<SqlValue>>, v: Seq<RecordingRunItem>) -> bool {
    rows.len() == v.len() && forall|k: int| 0 <= k < v.len() ==> #[trigger] run_row(rows[k], v[k])
}

/// `v` holds one recording account per row of `rows`, in order.
pub open spec fn accounts_from_rows(rows: Seq<Seq<SqlValue>>, v: Seq<RecordingAccountItem>) -> bool {
    rows.len() == v.len() && forall|k: int| 0 <= k < v.len() ==> #[trigger] account_row(rows[k], v[k])
}

/// Reads recording runs, one per row.
pub fn decode_recording_runs(rows: &Vec<Vec<SqlValue>>) -> (r: Result<Vec<RecordingRunItem>, AppError>)
    requires
        forall|i: int| 0 <= i < rows@.len() ==> (#[trigger] rows@[i])@.len() == 7,
    ensures
        r matches Err(e) ==> e@.0 == ErrorKind::Database,
        r matches Ok(v) ==> v@.len() == rows@.len() && forall|k: int| 0 <= k < v@.len() ==> run_row(rows@[k]@, #[trigger] v@[k]),
{
    let mut out: Vec<RecordingRunItem> = Vec::new();
    let mut i: usize = 0;
    while i < rows.len()
        invariant
            i <= rows@.len(),
            out@.len() == i,
            forall|k: int| 0 <= k < rows@.len() ==> (#[trigger] rows@[k])@.len() == 7,
            forall|k: int| 0 <= k < i ==> run_row(rows@[k]@, #[trigger] out@[k]),
        decreases rows.len() - i,
    {
        let t = decode_recording_run(&rows[i])?;
        out.push(t);
        i += 1;
    }
    Ok(out)
}

// ----- selections over task rows -----

/// A task row as read for batch work: id, task_type, status, input_json.
pub open spec fn retryable_row(row: Seq<SqlValue>, batch_id: Seq<char>) -> bool {
    &&& text_cell(row[1]) == Some("video.download"@)
    &&& text_cell(row[2]) == Some("queued"@)
    &&& doc_field(text_cell(row[3]), "batchId"@) == Some(batch_id)
}

/// The ids of the queued video downloads of batch `batch_id`, in row order.
pub open spec fn retryable_ids_spec(rows: Seq<Seq<SqlValue>>, batch_id: Seq<char>) -> Seq<Seq<char>>
    decreases rows.len(),
{
    if rows.len() == 0 {
        seq![]
    } else {
        let prev = retryable_ids_spec(rows.drop_last(), batch_id);
        if retryable_row(rows.last(), batch_id) {
            prev.push(text_cell(rows.last()[0]).unwrap())
        } else {
            prev
        }
    }
}

/// Every row's first four columns are text.
pub open spec fn text_rows4(rows: Seq<Seq<SqlValue>>) -> bool {
    forall|i: int| 0 <= i < rows.len() ==> (#[trigger] rows[i]).len() == 4 && text_cell(rows[i][0]) is Some
        && text_cell(rows[i][1]) is Some && text_cell(rows[i][2]) is Some && text_cell(rows[i][3]) is Some
}

/// The ids of the queued video-download tasks of a batch, in row order
/// (rows: id, task_type, status, input_json). A row with a non-text value
/// is an error.
pub fn retryable_task_ids(rows: &Vec<Vec<SqlValue>>, batch_id: &str) -> (r: Result<Vec<String>, AppError>)
    requires
        forall|i: int| 0 <= i < rows@.len() ==> (#[trigger] rows@[i])@.len() == 4,
    ensures
        r matches Err(e) ==> e@.0 == ErrorKind::Database,
        r is Ok <==> text_rows4(rows@.map_values(|x: Vec<SqlValue>| x@)),
        r matches Ok(ids) ==> crate::submit::views(ids@) == retryable_ids_spec(rows@.map_values(|x: Vec<SqlValue>| x@), batch_id@),
{
    let ghost rv = rows@.map_values(|x: Vec<SqlValue>| x@);
    let mut ids: Vec<String> = Vec::new();
    let mut i: usize = 0;
    while i < rows.len()
        invariant
            i <= rows@.len(),
            rv == rows@.map_values(|x: Vec<SqlValue>| x@),
            forall|k: int| 0 <= k < rows@.len() ==> (#[trigger] rows@[k])@.len() == 4,
            text_rows4(rv.take(i as int)),
            crate::submit::views(ids@) == retryable_ids_spec(rv.take(i as int), batch_id@),
        decreases rows.len() - i,
    {
        let row = &rows[i];
        assert(rv[i as int] == row@);
        assert(rv.take(i + 1).drop_last() =~= rv.take(i as int));
        let id = text_at(row, 0);
        let task_type = text_at(row, 1);
        let status = text_at(row, 2);
        let input = text_at(row, 3);
        if id.is_err() || task_type.is_err() || status.is_err() || input.is_err() {
            proof {
                assert(!text_rows4(rv)) by {
                    assert(rv[i as int] == row@);
                }
            }
            let k: usize = if id.is_err() { 0 } else if task_type.is_err() { 1 } else if status.is_err() { 2 } else { 3 };
            return Err(column_err(k));
        }
        let id = id.unwrap();
        let task_type = task_type.unwrap();
        let status = status.unwrap();
        let input = Some(input.unwrap());
        proof {
            assert forall|k: int| 0 <= k < i + 1 implies (#[trigger] rv.take(i + 1)[k]).len() == 4 && text_cell(rv.take(i + 1)[k][0]) is Some
                && text_cell(rv.take(i + 1)[k][1]) is Some && text_cell(rv.take(i + 1)[k][2]) is Some && text_cell(rv.take(i + 1)[k][3]) is Some by {
                if k < i {
                    assert(rv.take(i + 1)[k] == rv.take(i as int)[k]);
                }
            }
        }
        if str_eq(task_type.as_str(), "video.download") && str_eq(status.as_str(), "queued") {
            match read_doc_field(&input, "batchId") {
                Some(b) => {
                    if str_eq(b.as_str(), batch_id) {
                        ids.push(id);
                    }
                },
                None => {},
            }
        }
        i += 1;
    }
    assert(rv.take(rows.len() as int) =~= rv);
    Ok(ids)
}


/// The row belongs to batch `b`: its input document (column `input`) names `b`.
pub open spec fn in_batch(row: Seq<SqlValue>, input: int, b: Seq<char>) -> bool {
    doc_field(text_cell(row[input]), "batchId"@) == Some(b)
}

/// The rows of batch `b`, in order (input document in column `input`).
pub open spec fn batch_rows(rows: Seq<Seq<SqlValue>>, input: int, b: Seq<char>) -> Seq<Seq<SqlValue>>
    decreases rows.len(),
{
    if rows.len() == 0 {
        seq![]
    } else {
        let prev = batch_rows(rows.drop_last(), input, b);
        if in_batch(rows.last(), input, b) {
            prev.push(rows.last())
        } else {
            prev
        }
    }
}

/// Task rows as read for a batch's task list: id, task_type, status,
/// input_json, output_json (or NULL), created_at, updated_at, error_text (or
/// NULL).
pub open spec fn batch_item_row_typed(row: Seq<SqlValue>) -> bool {
    &&& row.len() == 8
    &&& text_cell(row[0]) is Some && text_cell(row[1]) is Some && text_cell(row[2]) is Some
    &&& text_cell(row[3]) is Some && opt_text_cell(row[4]) is Some
    &&& text_cell(row[5]) is Some && text_cell(row[6]) is Some && opt_text_cell(row[7]) is Some
}

/// `it` is the batch task that `row` holds: the link comes from the input
/// document, the author from the output document.
pub open spec fn batch_item_row(row: Seq<SqlValue>, it: DownloadBatchTaskItem) -> bool {
    let input = text_cell(row[3]);
    let output = opt_text_cell(row[4]).unwrap();
    &&& text_cell(row[0]) == Some(it.id@)
    &&& text_cell(row[1]) == Some(it.task_type@)
    &&& text_cell(row[2]) == Some(it.status@)
    &&& opt_view(it.source_url) == doc_field(input, "sourceUrl"@)
    &&& opt_view(it.author_name) == doc_field(output, "authorName"@)
    &&& opt_view(it.author_uid) == doc_field(output, "authorUid"@)
    &&& text_cell(row[5]) == Some(it.created_at@)
    &&& text_cell(row[6]) == Some(it.updated_at@)
    &&& opt_text_cell(row[7]) == Some(opt_view(it.error_text))
}

fn decode_batch_item(row: &Vec<SqlValue>) -> (r: Result<DownloadBatchTaskItem, AppError>)
    requires
        row@.len() == 8,
    ensures
        r matches Err(e) ==> e@.0 == ErrorKind::Database,
        r is Ok <==> batch_item_row_typed(row@),
        r matches Ok(it) ==> batch_item_row(row@, it),
{
    let id = text_at(row, 0)?;
    let task_type = text_at(row, 1)?;
    let status = text_at(row, 2)?;
    let input = Some(text_at(row, 3)?);
    let output = opt_text_at(row, 4)?;
    let created_at = text_at(row, 5)?;
    let updated_at = text_at(row, 6)?;
    let error_text = opt_text_at(row, 7)?;
    Ok(DownloadBatchTaskItem {
        id,
        task_type,
        status,
        source_url: read_doc_field(&input, "sourceUrl"),
        author_name: read_doc_field(&output, "authorName"),
        author_uid: read_doc_field(&output, "authorUid"),
        created_at,
        updated_at,
        error_text,
    })
}

/// The views of a list of rows.
pub open spec fn rows_view(rows: Seq<Vec<SqlValue>>) -> Seq<Seq<SqlValue>> {
    rows.map_values(|x: Vec<SqlValue>| x@)
}

/// The tasks of batch `batch_id`, in row order. Every row is read, so a
/// badly typed row of any batch is an error.
pub fn batch_task_items(rows: &Vec<Vec<SqlValue>>, batch_id: &str) -> (r: Result<Vec<DownloadBatchTaskItem>, AppError>)
    requires
        forall|i: int| 0 <= i < rows@.len() ==> (#[trigger] rows@[i])@.len() == 8,
    ensures
        r matches Err(e) ==> e@.0 == ErrorKind::Database,
        r is Ok <==> forall|k: int| 0 <= k < rows@.len() ==> batch_item_row_typed(#[trigger] rows@[k]@),
        r matches Ok(items) ==> {
            let sel = batch_rows(rows_view(rows@), 3, batch_id@);
            &&& items@.len() == sel.len()
            &&& forall|k: int| 0 <= k < sel.len() ==> batch_item_row(sel[k], #[trigger] items@[k])
        },
{
    let ghost rv = rows_view(rows@);
    let mut items: Vec<DownloadBatchTaskItem> = Vec::new();
    let mut i: usize = 0;
    while i < rows.len()
        invariant
            i <= rows@.len(),
            rv == rows_view(rows@),
            forall|k: int| 0 <= k < rows@.len() ==> (#[trigger] rows@[k])@.len() == 8,
            forall|k: int| 0 <= k < i ==> batch_item_row_typed(#[trigger] rows@[k]@),
            items@.len() == batch_rows(rv.take(i as int), 3, batch_id@).len(),
            forall|k: int| 0 <= k < items@.len() ==> batch_item_row(batch_rows(rv.take(i as int), 3, batch_id@)[k], #[trigger] items@[k]),
        decreases rows.len() - i,
    {
        let row = &rows[i];
        assert(rv[i as int] == row@);
        assert(rv.take(i + 1).drop_last() =~= rv.take(i as int));
        assert(rv.take(i + 1).last() == row@);
        let item = decode_batch_item(row)?;
        let input = Some(text_at(row, 3)?);
        let ghost prev = batch_rows(rv.take(i as int), 3, batch_id@);
        let b = read_doc_field(&input, "batchId");
        let belongs = match &b {
            Some(v) => str_eq(v.as_str(), batch_id),
            None => false,
        };
        if belongs {
            items.push(item);
            assert(batch_rows(rv.take(i + 1), 3, batch_id@) == prev.push(row@));
        } else {
            assert(batch_rows(rv.take(i + 1), 3, batch_id@) == prev);
        }
        i += 1;
    }
    assert(rv.take(rows.len() as int) =~= rv);
    Ok(items)
}

/// The statuses of the rows of batch `b` (status in column 0, input document
/// in column 1).
pub open spec fn batch_statuses(rows: Seq<Seq<SqlValue>>, b: Seq<char>) -> Seq<Seq<char>> {
    batch_rows(rows, 1, b).map_values(|row: Seq<SqlValue>| text_cell(row[0]).unwrap())
}

/// Both columns (status, input_json) are text.
pub open spec fn stats_row_typed(row: Seq<SqlValue>) -> bool {
    row.len() == 2 && text_cell(row[0]) is Some && text_cell(row[1]) is Some
}

/// The counts of batch `batch_id` over video-download rows (status,
/// input_json): how many tasks it has and how many are in each status.
pub fn batch_stats_from_rows(rows: &Vec<Vec<SqlValue>>, batch_id: &str) -> (r: Result<BatchTaskStats, AppError>)
    requires
        rows@.len() <= u32::MAX,
        forall|i: int| 0 <= i < rows@.len() ==> (#[trigger] rows@[i])@.len() == 2,
    ensures
        r matches Err(e) ==> e@.0 == ErrorKind::Database,
        r is Ok <==> forall|k: int| 0 <= k < rows@.len() ==> stats_row_typed(#[trigger] rows@[k]@),
        r matches Ok(stats) ==> {
            &&& stats.total_seen == batch_statuses(rows_view(rows@), batch_id@).len()
            &&& stats.counts_statuses(batch_statuses(rows_view(rows@), batch_id@))
        },
{
    let ghost rv = rows_view(rows@);
    let mut stats = BatchTaskStats::zero();
    let mut i: usize = 0;
    assert(batch_statuses(rv.take(0), batch_id@) =~= Seq::<Seq<char>>::empty());
    while i < rows.len()
        invariant
            i <= rows@.len() <= u32::MAX,
            rv == rows_view(rows@),
            forall|k: int| 0 <= k < rows@.len() ==> (#[trigger] rows@[k])@.len() == 2,
            forall|k: int| 0 <= k < i ==> stats_row_typed(#[trigger] rows@[k]@),
            stats.total_seen == batch_statuses(rv.take(i as int), batch_id@).len(),
            stats.total_seen <= i,
            stats.counts_statuses(batch_statuses(rv.take(i as int), batch_id@)),
        decreases rows.len() - i,
    {
        let row = &rows[i];
        assert(rv[i as int] == row@);
        assert(rv.take(i + 1).drop_last() =~= rv.take(i as int));
        assert(rv.take(i + 1).last() == row@);
        let status = text_at(row, 0)?;
        let input = Some(text_at(row, 1)?);
        let ghost prev = batch_statuses(rv.take(i as int), batch_id@);
        let b = read_doc_field(&input, "batchId");
        let belongs = match &b {
            Some(v) => str_eq(v.as_str(), batch_id),
            None => false,
        };
        if belongs {
            let ghost next = batch_statuses(rv.take(i + 1), batch_id@);
            assert(batch_rows(rv.take(i + 1), 1, batch_id@) == batch_rows(rv.take(i as int), 1, batch_id@).push(row@));
            assert(next =~= prev.push(status@));
            assert(next.drop_last() =~= prev);
            proof {
                crate::batch::lemma_count_class_bound(prev, status_class(status@));
            }
            stats.total_seen = stats.total_seen + 1;
            apply_task_status(&mut stats, status.as_str());
            assert(stats.count_of(StatusClass::Success) == count_class(next, StatusClass::Success));
            assert(stats.count_of(StatusClass::Failed) == count_class(next, StatusClass::Failed));
            assert(stats.count_of(StatusClass::Running) == count_class(next, StatusClass::Running));
            assert(stats.count_of(StatusClass::Queued) == count_class(next, StatusClass::Queued));
        } else {
            assert(batch_rows(rv.take(i + 1), 1, batch_id@) == batch_rows(rv.take(i as int), 1, batch_id@));
        }
        i += 1;
    }
    assert(rv.take(rows.len() as int) =~= rv);
    Ok(stats)
}

} // verus!
