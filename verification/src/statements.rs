//! The statements the store hands to SQLite.

use vstd::prelude::*;
use crate::sqlite::SqlValue;

verus! {

/// A statement parameter as handed over: the value a `SqlValue` binds.
pub enum SqlArg {
    Null,
    Integer(i64),
    Text(Seq<char>),
    Other,
}

/// What a `SqlValue` binds.
pub open spec fn arg_view(v: SqlValue) -> SqlArg {
    match v {
        SqlValue::Null => SqlArg::Null,
        SqlValue::Integer(n) => SqlArg::Integer(n),
        SqlValue::Text(s) => SqlArg::Text(s@),
        SqlValue::Other => SqlArg::Other,
    }
}

/// What a parameter list binds, in order.
pub open spec fn args_view(p: Seq<SqlValue>) -> Seq<SqlArg> {
    p.map_values(|v: SqlValue| arg_view(v))
}

/// A text parameter.
pub open spec fn text_arg(s: Seq<char>) -> SqlArg {
    SqlArg::Text(s)
}

/// A text parameter, or NULL for none.
pub open spec fn opt_arg(o: Option<Seq<char>>) -> SqlArg {
    match o {
        Some(s) => SqlArg::Text(s),
        None => SqlArg::Null,
    }
}

/// A yes/no parameter, stored as 1 or 0.
pub open spec fn flag_arg(b: bool) -> SqlArg {
    SqlArg::Integer(if b { 1 } else { 0 })
}

/// One thing the store handed to SQLite.
pub enum StoreOp {
    /// Statements run as one script, without parameters.
    Script(Seq<char>),
    /// One statement run with its parameters.
    Execute(Seq<char>, Seq<SqlArg>),
    /// A query with its parameters, and the rows it gave (none when it failed).
    Query(Seq<char>, Seq<SqlArg>, Option<Seq<Seq<SqlValue>>>),
}

/// The rows a query gave (empty for anything else).
pub open spec fn reply(op: StoreOp) -> Seq<Seq<SqlValue>> {
    match op {
        StoreOp::Query(_, _, Some(rows)) => rows,
        _ => seq![],
    }
}

/// The text of parameter `i` of a statement (empty when it is not text).
pub open spec fn arg_text(op: StoreOp, i: int) -> Seq<char> {
    match op {
        StoreOp::Execute(_, args) => match args[i] {
            SqlArg::Text(s) => s,
            _ => seq![],
        },
        _ => seq![],
    }
}

/// The time a statement stamped on its row: the text of its last parameter.
pub open spec fn stamp(op: StoreOp) -> Seq<char> {
    match op {
        StoreOp::Execute(_, args) => arg_text(op, args.len() - 1),
        _ => seq![],
    }
}

/// The fresh id a statement gave its new row: the text of its first parameter.
pub open spec fn fresh_id(op: StoreOp) -> Seq<char> {
    arg_text(op, 0)
}

/// `after` is `before` with statement `sql` run once more with `args`.
pub open spec fn ran(before: Seq<StoreOp>, after: Seq<StoreOp>, sql: Seq<char>, args: Seq<SqlArg>) -> bool {
    after == before.push(StoreOp::Execute(sql, args))
}

/// `after` is `before` with query `sql` asked once more with `args`, and
/// answered.
pub open spec fn asked(before: Seq<StoreOp>, after: Seq<StoreOp>, sql: Seq<char>, args: Seq<SqlArg>) -> bool {
    after == before.push(StoreOp::Query(sql, args, Some(reply(after.last()))))
}

/// What a query gave: its rows, or none when it failed.
pub open spec fn result_of(op: StoreOp) -> Option<Seq<Seq<SqlValue>>> {
    match op {
        StoreOp::Query(_, _, res) => res,
        _ => None,
    }
}

/// `after` is `before` with query `sql` asked once more with `args`,
/// answered or not.
pub open spec fn tried(before: Seq<StoreOp>, after: Seq<StoreOp>, sql: Seq<char>, args: Seq<SqlArg>) -> bool {
    after == before.push(StoreOp::Query(sql, args, result_of(after.last())))
}

/// The rows of the last query of `ops`.
pub open spec fn answer(ops: Seq<StoreOp>) -> Seq<Seq<SqlValue>> {
    reply(ops.last())
}

pub const SQL_COUNT_BATCH_TASK: &'static str = "UPDATE download_batches
       SET success_count = success_count + ?2,
           failed_count = failed_count + ?3,
           updated_at = ?4
       WHERE id = ?1";

pub const SQL_BATCH_PROGRESS: &'static str = "SELECT id, platform, total_count, success_count, failed_count, completion_handled
       FROM download_batches
       WHERE id = ?1";

pub const SQL_MARK_BATCH_COMPLETED: &'static str = "UPDATE download_batches
       SET completion_handled = 1,
           completed_at = ?2,
           updated_at = ?2
       WHERE id = ?1 AND completion_handled = 0";

pub const SQL_MIGRATION_APPLIED: &'static str = "SELECT COUNT(1) FROM _migrations WHERE version = ?1";

pub const SQL_RECORD_MIGRATION: &'static str = "INSERT INTO _migrations (version, applied_at) VALUES (?1, ?2)";

pub const SQL_INSERT_TASK: &'static str = "INSERT INTO tasks (
        id, task_type, status, input_json, output_json, error_text, created_at, updated_at
      ) VALUES (?1, ?2, ?3, ?4, NULL, NULL, ?5, ?5)";

pub const SQL_INSERT_BATCH: &'static str = "INSERT INTO download_batches (
        id, platform, total_count, success_count, failed_count, completion_handled, created_at, updated_at, completed_at
      ) VALUES (?1, ?2, ?3, 0, 0, 0, ?4, ?4, NULL)";

pub const SQL_TASK_SUCCEEDED: &'static str = "UPDATE tasks SET status = ?2, output_json = ?3, error_text = NULL, updated_at = ?4 WHERE id = ?1";

pub const SQL_SET_TASK_STATUS: &'static str = "UPDATE tasks SET status = ?2, updated_at = ?3 WHERE id = ?1";

pub const SQL_TASK_FAILED: &'static str = "UPDATE tasks SET status = ?2, error_text = ?3, updated_at = ?4 WHERE id = ?1";

pub const SQL_APPEND_TASK_LOG: &'static str = "INSERT INTO task_logs (id, task_id, level, message, ts) VALUES (?1, ?2, ?3, ?4, ?5)";

pub const SQL_LIST_TASKS: &'static str = "SELECT id, task_type, status, created_at, updated_at, error_text
       FROM tasks ORDER BY created_at DESC LIMIT ?1";

pub const SQL_COUNT_BATCHES: &'static str = "SELECT COUNT(1) FROM download_batches";

pub const SQL_LIST_BATCHES: &'static str = "SELECT id, platform, total_count, success_count, failed_count, created_at, updated_at, completed_at
       FROM download_batches
       ORDER BY created_at DESC
       LIMIT ?1 OFFSET ?2";

pub const SQL_VIDEO_DOWNLOAD_STATUSES: &'static str = "SELECT status, input_json
       FROM tasks
       WHERE task_type = 'video.download'
       ORDER BY created_at ASC";

pub const SQL_ALL_TASK_ITEMS: &'static str = "SELECT id, task_type, status, input_json, output_json, created_at, updated_at, error_text
       FROM tasks
       ORDER BY created_at ASC";

pub const SQL_BATCH_BY_ID: &'static str = "SELECT id, platform, total_count, success_count, failed_count, created_at, updated_at, completed_at
         FROM download_batches
         WHERE id = ?1";

pub const SQL_TASK_LOGS: &'static str = "SELECT task_id, level, message, ts
       FROM task_logs
       WHERE task_id = ?1
       ORDER BY ts ASC";

pub const SQL_TASK_SUMMARY_BY_ID: &'static str = "SELECT id, task_type, status, created_at, updated_at, error_text
           FROM tasks WHERE id = ?1";

pub const SQL_TASK_RECORD_BY_ID: &'static str = "SELECT id, task_type, status, created_at, updated_at, error_text, input_json, output_json
         FROM tasks WHERE id = ?1";

pub const SQL_TASK_STATUS_BY_ID: &'static str = "SELECT status FROM tasks WHERE id = ?1";

pub const SQL_RETRY_CANDIDATES: &'static str = "SELECT id, task_type, status, input_json
       FROM tasks
       ORDER BY created_at ASC";

pub const SQL_RESET_BATCH: &'static str = "UPDATE download_batches
       SET success_count = 0,
           failed_count = 0,
           completion_handled = 0,
           completed_at = NULL,
           updated_at = ?2
       WHERE id = ?1";

pub const SQL_GET_META: &'static str = "SELECT value FROM app_meta WHERE key = ?1";

pub const SQL_SET_META: &'static str = "INSERT INTO app_meta (key, value, updated_at)
       VALUES (?1, ?2, ?3)
       ON CONFLICT(key) DO UPDATE SET value = excluded.value, updated_at = excluded.updated_at";

pub const SQL_LIST_ACCOUNTS: &'static str = "SELECT id, platform, account_input, account_name, account_uid, account_avatar_url,
              account_room_id, account_web_rid, account_sec_user_id, account_unique_id,
              auto_start, retry_on_disconnect, split_recording, save_snapshot,
              enabled, status, last_checked_at, last_recorded_at, last_error, created_at, updated_at
       FROM recording_accounts
       ORDER BY created_at DESC";

pub const SQL_LIST_ACCOUNT_LOGS: &'static str = "SELECT account_id, level, message, ts
       FROM recording_account_logs
       ORDER BY ts DESC
       LIMIT ?1";

pub const SQL_ACCOUNT_LOGS_FOR: &'static str = "SELECT account_id, level, message, ts
       FROM recording_account_logs
       WHERE account_id = ?1
       ORDER BY ts DESC
       LIMIT ?2";

pub const SQL_ACCOUNT_BY_ID: &'static str = "SELECT id, platform, account_input, account_name, account_uid, account_avatar_url,
                account_room_id, account_web_rid, account_sec_user_id, account_unique_id,
                auto_start, retry_on_disconnect, split_recording, save_snapshot,
                enabled, status, last_checked_at, last_recorded_at, last_error, created_at, updated_at
         FROM recording_accounts
         WHERE id = ?1";

pub const SQL_FIND_DUPLICATE_ACCOUNT: &'static str = "SELECT id
         FROM recording_accounts
         WHERE platform = ?1 AND lower(trim(account_input)) = lower(trim(?2))
         LIMIT 1";

pub const SQL_FIND_OTHER_DUPLICATE_ACCOUNT: &'static str = "SELECT id
         FROM recording_accounts
         WHERE platform = ?1
           AND lower(trim(account_input)) = lower(trim(?2))
           AND id != ?3
         LIMIT 1";

pub const SQL_INSERT_ACCOUNT: &'static str = "INSERT INTO recording_accounts (
         id, platform, account_input, account_name, account_uid, account_avatar_url,
         account_room_id, account_web_rid, account_sec_user_id, account_unique_id,
         auto_start, retry_on_disconnect, split_recording, save_snapshot,
         enabled, status, last_checked_at, last_recorded_at, last_error, created_at, updated_at
       ) VALUES (?1, ?2, ?3, ?4, ?5, ?6, ?7, ?8, ?9, ?10, ?11, ?12, ?13, ?14, 1, 'watching', NULL, NULL, NULL, ?15, ?15)";

pub const SQL_UPDATE_ACCOUNT: &'static str = "UPDATE recording_accounts
       SET platform = ?2,
           account_input = ?3,
           account_name = ?4,
           account_uid = ?5,
           account_avatar_url = ?6,
           account_room_id = ?7,
           account_web_rid = ?8,
           account_sec_user_id = ?9,
           account_unique_id = ?10,
           auto_start = ?11,
           retry_on_disconnect = ?12,
           split_recording = ?13,
           save_snapshot = ?14,
           updated_at = ?15
       WHERE id = ?1";

pub const SQL_SET_ACCOUNT_ENABLED: &'static str = "UPDATE recording_accounts
       SET enabled = ?2, status = ?3, updated_at = ?4
       WHERE id = ?1";

pub const SQL_DELETE_ACCOUNT_LOGS: &'static str = "DELETE FROM recording_account_logs WHERE account_id = ?1";

pub const SQL_DELETE_ACCOUNT: &'static str = "DELETE FROM recording_accounts WHERE id = ?1";

pub const SQL_APPEND_ACCOUNT_LOG: &'static str = "INSERT INTO recording_account_logs (id, account_id, level, message, ts)
       VALUES (?1, ?2, ?3, ?4, ?5)";

pub const SQL_ACCOUNT_CHECK_RESULT: &'static str = "UPDATE recording_accounts
       SET status = ?2,
           account_room_id = COALESCE(?3, account_room_id),
           account_web_rid = COALESCE(?4, account_web_rid),
           last_checked_at = ?5,
           last_error = ?6,
           updated_at = ?5
       WHERE id = ?1";

pub const SQL_LIST_ENABLED_ACCOUNTS: &'static str = "SELECT id, platform, account_input, account_name, account_uid, account_avatar_url,
              account_room_id, account_web_rid, account_sec_user_id, account_unique_id,
              auto_start, retry_on_disconnect, split_recording, save_snapshot,
              enabled, status, last_checked_at, last_recorded_at, last_error, created_at, updated_at
       FROM recording_accounts
       WHERE enabled = 1
       ORDER BY created_at DESC";

pub const SQL_LIST_RUNS: &'static str = "SELECT id, status, input_json, output_json, error_text, created_at, updated_at
       FROM tasks
       WHERE task_type = 'recording.live'
       ORDER BY created_at DESC
       LIMIT ?1";

pub const SQL_ACTIVE_RUNS: &'static str = "SELECT id, status, input_json, output_json, error_text, created_at, updated_at
       FROM tasks
       WHERE task_type = 'recording.live' AND status = 'running'
       ORDER BY created_at ASC";

pub const SQL_FAIL_RUN: &'static str = "UPDATE tasks SET status = 'failed', error_text = ?2, updated_at = ?3 WHERE id = ?1";

pub const SQL_RUN_WARNING: &'static str = "INSERT INTO task_logs (id, task_id, level, message, ts) VALUES (?1, ?2, 'warning', ?3, ?4)";

pub const SQL_ACCOUNT_STARTED: &'static str = "UPDATE recording_accounts
       SET status = 'recording',
           last_checked_at = ?2,
           last_error = NULL,
           updated_at = ?2
       WHERE id = ?1";

pub const SQL_ACCOUNT_FINISHED: &'static str = "UPDATE recording_accounts
       SET status = ?2,
           last_checked_at = ?3,
           last_recorded_at = ?3,
           last_error = ?4,
           updated_at = ?3
       WHERE id = ?1";

pub const SQL_ACCOUNT_ENABLED_FLAG: &'static str = "SELECT enabled FROM recording_accounts WHERE id = ?1";

/// Whether the rows of a migration-count query show the migration recorded.
pub open spec fn migration_recorded(rows: Seq<Seq<SqlValue>>) -> bool {
    rows.len() > 0 && rows[0].len() > 0 && match crate::rows::int_cell(rows[0][0]) {
        Some(n) => n > 0,
        None => false,
    }
}

/// Where the steps of a migration whose count query stands at `k` end.
pub open spec fn migration_end(ops: Seq<StoreOp>, k: int) -> int {
    if migration_recorded(reply(ops[k])) {
        k + 1
    } else {
        k + 3
    }
}

/// At position `k` of `ops` the count of migration `version`'s record is
/// asked for; when it is not recorded, its script follows and then its record
/// (stamped with the time).
pub open spec fn applied_at(ops: Seq<StoreOp>, k: int, version: Seq<char>, script: Seq<char>) -> bool {
    &&& 0 <= k < ops.len()
    &&& ops[k] == StoreOp::Query(SQL_MIGRATION_APPLIED@, seq![text_arg(version)], Some(reply(ops[k])))
    &&& !migration_recorded(reply(ops[k])) ==> {
        &&& k + 2 < ops.len()
        &&& ops[k + 1] == StoreOp::Script(script)
        &&& ops[k + 2] == StoreOp::Execute(SQL_RECORD_MIGRATION@, seq![text_arg(version), text_arg(stamp(ops[k + 2]))])
    }
}

/// A prefix of a prefix is a prefix.
pub proof fn lemma_prefix_trans(a: Seq<StoreOp>, b: Seq<StoreOp>, c: Seq<StoreOp>)
    requires
        a.is_prefix_of(b),
        b.is_prefix_of(c),
    ensures
        a.is_prefix_of(c),
{
    assert forall|i: int| 0 <= i < a.len() implies a[i] == c.subrange(0, a.len() as int)[i] by {
        assert(a[i] == b.subrange(0, a.len() as int)[i]);
        assert(b[i] == c.subrange(0, b.len() as int)[i]);
    }
    assert(a =~= c.subrange(0, a.len() as int));
}

/// Entries of `before` stay at their places in `after`.
pub proof fn lemma_prefix_index(before: Seq<StoreOp>, after: Seq<StoreOp>, i: int)
    requires
        before.is_prefix_of(after),
        0 <= i < before.len(),
    ensures
        after[i] == before[i],
{
    assert(before[i] == after.subrange(0, before.len() as int)[i]);
}

} // verus!
