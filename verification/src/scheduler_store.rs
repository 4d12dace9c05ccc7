//! The recording scheduler's steps against the store: recovering runs left
//! over from a previous start, starting a recording run, and recording how a
//! recorder ended.

use vstd::prelude::*;
use crate::database::{Db, first_value, enabled_value, task_inserted_at, status_set_at, logged_at, account_logged_at, stale_run_marked, task_failed_at};
use crate::statements::{
    StoreOp, text_arg, opt_arg, stamp, arg_text, reply, answer, result_of, tried, ran,
    SQL_ACCOUNT_ENABLED_FLAG, SQL_ACCOUNT_FINISHED, SQL_TASK_FAILED, SQL_TASK_STATUS_BY_ID, SQL_GET_META,
    SQL_ACCOUNT_STARTED, SQL_ACTIVE_RUNS,
};
use crate::settings::setting_key_text;
use crate::error::{AppError, ErrorKind, validation_error};
use crate::external::{json_object, json_object_text, json_text_field, JsonField, JsonFieldView, fields_view, distinct_keys};
use crate::models::{RecordingAccountItem, RecordingLiveStatusResult, RecordingRunItem};
use crate::scheduler::{
    recording_room_id, room_id_spec, recorder_exit_failure, exit_failure_spec,
    recording_concurrency_from_setting, decide_recording_start,
    start_decision_spec, StartDecision,
};
use crate::settings::SettingKey;
use crate::submit::{contains_text, views};
use crate::text::{opt_view, chars_of};
use crate::rows::runs_from_rows;

verus! {

/// The reason written to runs found still running when the scheduler starts.
pub const STALE_TASK_REASON: &'static str = "recording task recovered from stale running state during app startup";

/// The reason written to runs stopped because the application exits.
pub const STOP_TASK_REASON: &'static str = "recording task stopped because the application exited";

/// The status an account shows when a recording ends: `watching` when
/// enabled, `idle` otherwise.
pub open spec fn finished_status(enabled: bool) -> Seq<char> {
    if enabled {
        "watching"@
    } else {
        "idle"@
    }
}

/// At position `k` of `ops` account `id`'s enabled flag is asked for, and at
/// `k + 1` the account shows its recording finished with `error`: back to
/// watching when the flag read as enabled, idle otherwise, at the time
/// `finish_time(ops[k + 1])`.
pub open spec fn account_finished_at(ops: Seq<StoreOp>, k: int, id: Seq<char>, error: Seq<char>) -> bool {
    &&& 0 <= k && k + 1 < ops.len()
    &&& ops[k] == StoreOp::Query(SQL_ACCOUNT_ENABLED_FLAG@, seq![text_arg(id)], result_of(ops[k]))
    &&& ops[k + 1] == StoreOp::Execute(SQL_ACCOUNT_FINISHED@, seq![
        text_arg(id),
        text_arg(finished_status(enabled_value(reply(ops[k])))),
        text_arg(finish_time(ops[k + 1])),
        opt_arg(Some(error)),
    ])
}

/// The time a finish write records.
pub open spec fn finish_time(op: StoreOp) -> Seq<char> {
    arg_text(op, 2)
}

/// Whether an account is enabled; false when it cannot be read.
fn account_enabled_or_false(db: &mut Db, account_id: &str) -> (b: bool)
    ensures
        final(db).path_view() == old(db).path_view(),
        tried(old(db).ops(), final(db).ops(), SQL_ACCOUNT_ENABLED_FLAG@, seq![text_arg(account_id@)]),
        b == enabled_value(answer(final(db).ops())),
{
    match db.is_recording_account_enabled(account_id) {
        Ok(b) => b,
        Err(_) => false,
    }
}

/// Marks the runs left running by a previous start failed, logs each on its
/// account and shows the account finished; gives the recovered runs (none
/// when they cannot be read).
pub fn recover_stale_recording_runs(db: &mut Db) -> (runs: Vec<RecordingRunItem>)
    ensures
        final(db).path_view() == old(db).path_view(),
        old(db).ops().is_prefix_of(final(db).ops()),
        runs@.len() > 0 ==> {
            let n = old(db).ops().len() as int;
            let m = n + 1 + 2 * runs@.len();
            let f = final(db).ops();
            &&& f.len() == m + 3 * runs@.len()
            &&& f[n] == StoreOp::Query(SQL_ACTIVE_RUNS@, seq![], Some(reply(f[n])))
            &&& runs_from_rows(reply(f[n]), runs@)
            &&& forall|k: int| 0 <= k < runs@.len() ==> #[trigger] stale_run_marked(f, n + 1 + 2 * k, runs@[k].id@, STALE_TASK_REASON@)
            &&& forall|k: int| 0 <= k < runs@.len() ==> #[trigger] account_recovered_at(f, m + 3 * k, runs@[k].account_id@)
        },
{
    let ghost n = db.ops().len() as int;
    let runs = match db.mark_stale_recording_runs_failed(STALE_TASK_REASON) {
        Ok(v) => v,
        Err(_) => {
            return Vec::new();
        },
    };
    let ghost s1 = db.ops();
    let mut i: usize = 0;
    while i < runs.len()
        invariant
            i <= runs@.len(),
            db.path_view() == old(db).path_view(),
            old(db).ops().is_prefix_of(db.ops()),
            s1.is_prefix_of(db.ops()),
            s1.len() == n + 1 + 2 * runs@.len(),
            db.ops().len() == s1.len() + 3 * i,
            forall|k: int| 0 <= k < i ==> #[trigger] account_recovered_at(db.ops(), s1.len() + 3 * k, runs@[k].account_id@),
        decreases runs.len() - i,
    {
        let ghost before = db.ops();
        let account_id = runs[i].account_id.as_str();
        let enabled = account_enabled_or_false(db, account_id);
        let _ = db.append_recording_account_log(account_id, "warning", "应用重启后回收了上一次未结束的录制任务。");
        let now = crate::external::now_rfc3339();
        let reason = Some(STALE_TASK_REASON.to_owned());
        let _ = db.mark_recording_account_finished(account_id, now.as_str(), enabled, &reason);
        proof {
            let f = db.ops();
            let k0 = before.len() as int;
            assert(f[k0] == before.push(f[k0]).last());
            assert(account_recovered_at(f, k0, account_id@));
            assert forall|k: int| 0 <= k < i + 1 implies #[trigger] account_recovered_at(db.ops(), s1.len() + 3 * k, runs@[k].account_id@) by {
                if k < i {
                    assert(account_recovered_at(before, s1.len() + 3 * k, runs@[k].account_id@));
                }
            }
        }
        i += 1;
    }
    proof {
        let f = db.ops();
        crate::statements::lemma_prefix_index(s1, f, n);
        assert forall|k: int| 0 <= k < runs@.len() implies #[trigger] stale_run_marked(f, n + 1 + 2 * k, runs@[k].id@, STALE_TASK_REASON@) by {
            assert(stale_run_marked(s1, n + 1 + 2 * k, runs@[k].id@, STALE_TASK_REASON@));
            crate::statements::lemma_prefix_index(s1, f, n + 1 + 2 * k);
            crate::statements::lemma_prefix_index(s1, f, n + 2 + 2 * k);
        }
    }
    runs
}

/// From position `k` of `ops` account `id`, whose run was recovered, is
/// taken care of: its enabled flag asked for, a warning logged on it, and the
/// account shown finished with the stale-run reason.
pub open spec fn account_recovered_at(ops: Seq<StoreOp>, k: int, id: Seq<char>) -> bool {
    &&& 0 <= k && k + 2 < ops.len()
    &&& ops[k] == StoreOp::Query(SQL_ACCOUNT_ENABLED_FLAG@, seq![text_arg(id)], result_of(ops[k]))
    &&& account_logged_at(ops, k + 1, id, "warning"@, "应用重启后回收了上一次未结束的录制任务。"@)
    &&& ops[k + 2] == StoreOp::Execute(SQL_ACCOUNT_FINISHED@, seq![
        text_arg(id),
        text_arg(finished_status(enabled_value(reply(ops[k])))),
        text_arg(arg_text(ops[k + 2], 2)),
        opt_arg(Some(STALE_TASK_REASON@)),
    ])
}

/// A value, or empty for none.
pub open spec fn value_or_empty(v: Option<Seq<char>>) -> Seq<char> {
    match v {
        Some(t) => t,
        None => seq![],
    }
}

/// The status of a task, or empty when it cannot be read or is unknown.
pub fn task_status_or_empty(db: &mut Db, task_id: &str) -> (s: String)
    ensures
        final(db).path_view() == old(db).path_view(),
        tried(old(db).ops(), final(db).ops(), SQL_TASK_STATUS_BY_ID@, seq![text_arg(task_id@)]),
        s@ == value_or_empty(first_value(answer(final(db).ops()))),
{
    match db.get_task_status(task_id) {
        Ok(Some(s)) => s,
        _ => String::new(),
    }
}

/// `after` is `before` with a recorder's unexpected exit recorded: task
/// `task_id` failed with `message` and logged, account `account_id` logged
/// and shown finished with that message.
pub open spec fn exit_recorded(before: Seq<StoreOp>, after: Seq<StoreOp>, account_id: Seq<char>, task_id: Seq<char>, message: Seq<char>) -> bool {
    let n = before.len() as int;
    &&& after.len() == n + 5
    &&& task_failed_at(after, n, task_id, message)
    &&& logged_at(after, n + 1, task_id, "error"@, message)
    &&& account_logged_at(after, n + 2, account_id, "error"@, "录制进程异常退出，请查看任务明细。"@)
    &&& account_finished_at(after, n + 3, account_id, message)
}

/// Records a recorder that exited while its task showed `task_status`: when
/// the task still shows `running`, the task fails with the exit message, the
/// task and the account are logged and the account shows finished. Gives the
/// message, if one was recorded.
pub fn record_recorder_exit(db: &mut Db, account_id: &str, task_id: &str, task_status: &str, exited_ok: bool) -> (r: Option<&'static str>)
    ensures
        match r {
            Some(m) => exit_failure_spec(task_status@, exited_ok) == Some(m@),
            None => exit_failure_spec(task_status@, exited_ok) is None,
        },
        final(db).path_view() == old(db).path_view(),
        old(db).ops().is_prefix_of(final(db).ops()),
        r is None ==> final(db).ops() == old(db).ops(),
        r matches Some(m) ==> exit_recorded(old(db).ops(), final(db).ops(), account_id@, task_id@, m@),
{
    let failure = recorder_exit_failure(task_status, exited_ok);
    if let Some(message) = failure {
        let _ = db.update_task_failure(task_id, message);
        let _ = db.append_log(task_id, "error", message);
        let _ = db.append_recording_account_log(account_id, "error", "录制进程异常退出，请查看任务明细。");
        let ghost q = db.ops().len() as int;
        let enabled = account_enabled_or_false(db, account_id);
        let now = crate::external::now_rfc3339();
        let _ = db.mark_recording_account_finished(account_id, now.as_str(), enabled, &Some(message.to_owned()));
        proof {
            let f = db.ops();
            assert(f[q] == f.drop_last().last());
        }
    }
    failure
}

/// Records a recorder that exited: reads its task's status, then as
/// `record_recorder_exit`.
pub fn handle_finished_recorder(db: &mut Db, account_id: &str, task_id: &str, exited_ok: bool) -> (r: Option<&'static str>)
    ensures
        r matches Some(m) ==> m@ == if exited_ok {
            "recording worker exited before updating task status"@
        } else {
            "recording worker exited unexpectedly"@
        },
        final(db).path_view() == old(db).path_view(),
        final(db).ops().len() > old(db).ops().len(),
        tried(old(db).ops(), final(db).ops().take(old(db).ops().len() as int + 1), SQL_TASK_STATUS_BY_ID@, seq![text_arg(task_id@)]),
        match r {
            Some(m) => exit_failure_spec(value_or_empty(first_value(reply(final(db).ops()[old(db).ops().len() as int]))), exited_ok) == Some(m@),
            None => exit_failure_spec(value_or_empty(first_value(reply(final(db).ops()[old(db).ops().len() as int]))), exited_ok) is None,
        },
        r is None ==> final(db).ops().len() == old(db).ops().len() + 1,
        r matches Some(m) ==> exit_recorded(final(db).ops().take(old(db).ops().len() as int + 1), final(db).ops(), account_id@, task_id@, m@),
{
    let ghost n = db.ops().len() as int;
    let status = task_status_or_empty(db, task_id);
    let ghost s1 = db.ops();
    let r = record_recorder_exit(db, account_id, task_id, status.as_str(), exited_ok);
    proof {
        assert forall|j: int| 0 <= j < n + 1 implies db.ops().take(n + 1)[j] == s1[j] by {
            crate::statements::lemma_prefix_index(s1, db.ops(), j);
        }
        assert(db.ops().take(n + 1) =~= s1);
        assert(db.ops()[n] == s1[n]);
    }
    r
}

/// Records a recorder stopped with `reason`: the task fails and is logged,
/// the account is logged with `account_message` and shows finished.
pub fn record_recorder_stopped(db: &mut Db, account_id: &str, task_id: &str, reason: &str, account_message: &str)
    ensures
        final(db).path_view() == old(db).path_view(),
        old(db).ops().is_prefix_of(final(db).ops()),
        ({
            let n = old(db).ops().len() as int;
            let f = final(db).ops();
            &&& f.len() == n + 5
            &&& task_failed_at(f, n, task_id@, reason@)
            &&& logged_at(f, n + 1, task_id@, "warning"@, reason@)
            &&& account_logged_at(f, n + 2, account_id@, "warning"@, account_message@)
            &&& account_finished_at(f, n + 3, account_id@, reason@)
        }),
{
    let _ = db.update_task_failure(task_id, reason);
    let _ = db.append_log(task_id, "warning", reason);
    let _ = db.append_recording_account_log(account_id, "warning", account_message);
    let ghost q = db.ops().len() as int;
    let enabled = account_enabled_or_false(db, account_id);
    let now = crate::external::now_rfc3339();
    let _ = db.mark_recording_account_finished(account_id, now.as_str(), enabled, &Some(reason.to_owned()));
    proof {
        let f = db.ops();
        assert(f[q] == f.drop_last().last());
    }
}

/// The fields of a recording run's JSON input.
pub open spec fn recording_run_fields(account: RecordingAccountItem, web_rid: Option<Seq<char>>, room_id: Seq<char>) -> Seq<(Seq<char>, JsonFieldView)> {
    seq![
        ("accountId"@, JsonFieldView::Text(account.id@)),
        ("platform"@, JsonFieldView::Text(account.platform@)),
        ("accountName"@, JsonFieldView::Text(account.account_name@)),
        ("accountUid"@, JsonFieldView::Text(account.account_uid@)),
        ("accountRoomId"@, JsonFieldView::Text(room_id)),
        ("accountWebRid"@, match web_rid {
            Some(w) => JsonFieldView::Text(w),
            None => JsonFieldView::Null,
        }),
        ("accountSecUserId"@, match opt_view(account.account_sec_user_id) {
            Some(w) => JsonFieldView::Text(w),
            None => JsonFieldView::Null,
        }),
        ("retryOnDisconnect"@, JsonFieldView::Flag(account.retry_on_disconnect)),
        ("splitRecording"@, JsonFieldView::Flag(account.split_recording)),
        ("saveSnapshot"@, JsonFieldView::Flag(account.save_snapshot)),
    ]
}

/// The web rid a recording uses: the reported one, else the account's.
pub open spec fn web_rid_spec(live: Option<Seq<char>>, account: Option<Seq<char>>) -> Option<Seq<char>> {
    match live {
        Some(w) => Some(w),
        None => account,
    }
}

proof fn lemma_run_fields_distinct(f: Seq<(Seq<char>, JsonFieldView)>, account: RecordingAccountItem, web_rid: Option<Seq<char>>, room_id: Seq<char>)
    requires
        f == recording_run_fields(account, web_rid, room_id),
    ensures
        distinct_keys(f),
{
    reveal_strlit("accountId");
    reveal_strlit("platform");
    reveal_strlit("accountName");
    reveal_strlit("accountUid");
    reveal_strlit("accountRoomId");
    reveal_strlit("accountWebRid");
    reveal_strlit("accountSecUserId");
    reveal_strlit("retryOnDisconnect");
    reveal_strlit("splitRecording");
    reveal_strlit("saveSnapshot");
    assert forall|i: int, j: int| 0 <= i < j < f.len() implies f[i].0 != f[j].0 by {
        if f[i].0.len() == f[j].0.len() {
            assert(f[i].0[7] != f[j].0[7]);
        }
    }
}

fn opt_field(o: &Option<String>) -> (f: JsonField)
    ensures
        match opt_view(*o) {
            Some(s) => f matches JsonField::Text(t) && t@ == s,
            None => f is Null,
        },
{
    match o {
        Some(s) => JsonField::Text(s.clone()),
        None => JsonField::Null,
    }
}

/// The JSON input of a recording run; its `accountId` and `accountRoomId`
/// read back as the account's id and `room_id`.
pub fn recording_run_payload(account: &RecordingAccountItem, live: &RecordingLiveStatusResult, room_id: &str) -> (r: String)
    ensures
        r@ == json_object_text(recording_run_fields(*account, web_rid_spec(opt_view(live.account_web_rid), opt_view(account.account_web_rid)), room_id@)),
        json_text_field(r@, "accountId"@) == Some(account.id@),
        json_text_field(r@, "accountRoomId"@) == Some(room_id@),
{
    let web_rid = match &live.account_web_rid {
        Some(w) => JsonField::Text(w.clone()),
        None => opt_field(&account.account_web_rid),
    };
    let fields: Vec<(String, JsonField)> = vec![
        ("accountId".to_owned(), JsonField::Text(account.id.clone())),
        ("platform".to_owned(), JsonField::Text(account.platform.clone())),
        ("accountName".to_owned(), JsonField::Text(account.account_name.clone())),
        ("accountUid".to_owned(), JsonField::Text(account.account_uid.clone())),
        ("accountRoomId".to_owned(), JsonField::Text(room_id.to_owned())),
        ("accountWebRid".to_owned(), web_rid),
        ("accountSecUserId".to_owned(), opt_field(&account.account_sec_user_id)),
        ("retryOnDisconnect".to_owned(), JsonField::Flag(account.retry_on_disconnect)),
        ("splitRecording".to_owned(), JsonField::Flag(account.split_recording)),
        ("saveSnapshot".to_owned(), JsonField::Flag(account.save_snapshot)),
    ];
    let ghost f = recording_run_fields(*account, web_rid_spec(opt_view(live.account_web_rid), opt_view(account.account_web_rid)), room_id@);
    assert(fields_view(fields@) =~= f);
    proof {
        lemma_run_fields_distinct(f, *account, web_rid_spec(opt_view(live.account_web_rid), opt_view(account.account_web_rid)), room_id@);
    }
    let r = json_object(&fields);
    assert(fields_view(fields@)[0] == f[0]);
    assert(fields_view(fields@)[4] == f[4]);
    r
}

/// A started recording run: its task and when it started.
#[derive(Debug)]
pub struct StartedRun {
    pub task_id: String,
    pub started_at: String,
}

/// Starts a recording run for a live account: needs a non-blank room id (the
/// reported one, else the account's), creates the task with its JSON input,
/// shows it running, logs the task and the account, and shows the account
/// recording.
pub fn begin_recording_run(db: &mut Db, account: &RecordingAccountItem, live: &RecordingLiveStatusResult) -> (r: Result<StartedRun, AppError>)
    ensures
        room_id_spec(opt_view(live.account_room_id), opt_view(account.account_room_id)).len() == 0
            ==> (r matches Err(e) && e@ == validation_error("recording requires a valid room id"@)),
        r matches Ok(run) ==> run.task_id@.len() == 36,
        r matches Err(e) ==> e@.0 == ErrorKind::Database || e@ == validation_error("recording requires a valid room id"@),
        room_id_spec(opt_view(live.account_room_id), opt_view(account.account_room_id)).len() > 0
            ==> (r matches Err(e) ==> e@.0 == ErrorKind::Database),
        final(db).path_view() == old(db).path_view(),
        old(db).ops().is_prefix_of(final(db).ops()),
        room_id_spec(opt_view(live.account_room_id), opt_view(account.account_room_id)).len() == 0 ==> final(db).ops() == old(db).ops(),
        r matches Ok(run) ==> {
            let n = old(db).ops().len() as int;
            let f = final(db).ops();
            let room = room_id_spec(opt_view(live.account_room_id), opt_view(account.account_room_id));
            &&& f.len() == n + 5
            &&& task_inserted_at(f, n, run.task_id@, "recording.live"@, json_object_text(recording_run_fields(*account,
                web_rid_spec(opt_view(live.account_web_rid), opt_view(account.account_web_rid)), room)))
            &&& status_set_at(f, n + 1, run.task_id@, "running"@)
            &&& logged_at(f, n + 2, run.task_id@, "info"@, "live recording task running"@)
            &&& account_logged_at(f, n + 3, account.id@, "success"@, "检测到账号开播，已启动直播录制任务。"@)
            &&& f[n + 4] == StoreOp::Execute(SQL_ACCOUNT_STARTED@, seq![text_arg(account.id@), text_arg(run.started_at@)])
        },
{
    let room_id = recording_room_id(&live.account_room_id, &account.account_room_id)?;
    let payload = recording_run_payload(account, live, room_id.as_str());
    let task_id = db.insert_task("recording.live", payload.as_str())?;
    let now = crate::external::now_rfc3339();
    db.update_task_status(task_id.as_str(), "running")?;
    db.append_log(task_id.as_str(), "info", "live recording task running")?;
    db.append_recording_account_log(account.id.as_str(), "success", "检测到账号开播，已启动直播录制任务。")?;
    db.mark_recording_account_started(account.id.as_str(), now.as_str())?;
    Ok(StartedRun { task_id, started_at: now })
}

/// Records a recording run whose recorder could not be launched: the task
/// fails with `message` and is logged, and the account shows finished.
pub fn abort_recording_run(db: &mut Db, account_id: &str, run: &StartedRun, message: &str)
    ensures
        final(db).path_view() == old(db).path_view(),
        old(db).ops().is_prefix_of(final(db).ops()),
        ({
            let n = old(db).ops().len() as int;
            let f = final(db).ops();
            &&& f.len() == n + 4
            &&& task_failed_at(f, n, run.task_id@, message@)
            &&& logged_at(f, n + 1, run.task_id@, "error"@, message@)
            &&& account_finished_at(f, n + 2, account_id@, message@)
            &&& finish_time(f[n + 3]) == run.started_at@
        }),
{
    let _ = db.update_task_failure(run.task_id.as_str(), message);
    let _ = db.append_log(run.task_id.as_str(), "error", message);
    let ghost q = db.ops().len() as int;
    let enabled = account_enabled_or_false(db, account_id);
    let _ = db.mark_recording_account_finished(account_id, run.started_at.as_str(), enabled, &Some(message.to_owned()));
    proof {
        let f = db.ops();
        assert(f[q] == f.drop_last().last());
    }
}

/// The recording concurrency: the stored download concurrency setting read
/// as in `recording_concurrency_from_setting`; 3 when it cannot be read.
pub fn read_max_concurrent_recordings(db: &mut Db) -> (n: usize)
    ensures
        1 <= n <= 8,
        final(db).path_view() == old(db).path_view(),
        tried(old(db).ops(), final(db).ops(), SQL_GET_META@, seq![text_arg(setting_key_text(SettingKey::MaxConcurrentDownloads))]),
        n == crate::scheduler::stored_recording_concurrency(first_value(answer(final(db).ops()))),
{
    let raw = match db.get_meta(SettingKey::MaxConcurrentDownloads.as_str()) {
        Ok(v) => v,
        Err(_) => None,
    };
    recording_concurrency_from_setting(raw)
}

/// What the scheduler does about a checked account: nothing for an account
/// that already records; else the start decision, logging on the account
/// when every slot is taken.
pub fn decide_and_note_start(db: &mut Db, active_ids: &Vec<String>, account: &RecordingAccountItem, live_status: &str, active_count: usize, max_concurrency: usize) -> (d: StartDecision)
    ensures
        views(active_ids@).contains(account.id@) ==> d == StartDecision::Skip,
        !views(active_ids@).contains(account.id@) ==> d == start_decision_spec(
            live_status@,
            account.auto_start,
            account.platform@,
            active_count as nat,
            max_concurrency as nat,
        ),
        final(db).path_view() == old(db).path_view(),
        d != StartDecision::NoSlot ==> final(db).ops() == old(db).ops(),
        d == StartDecision::NoSlot ==> final(db).ops().len() == old(db).ops().len() + 1
            && account_logged_at(final(db).ops(), old(db).ops().len() as int, account.id@, "warning"@, "检测到账号已开播，但当前无可用录制并发槽位。"@),
{
    let id = chars_of(account.id.as_str());
    if contains_text(active_ids, &id) {
        return StartDecision::Skip;
    }
    let d = decide_recording_start(account, live_status, active_count, max_concurrency);
    if d == StartDecision::NoSlot {
        let _ = db.append_recording_account_log(account.id.as_str(), "warning", "检测到账号已开播，但当前无可用录制并发槽位。");
    }
    d
}

} // verus!
