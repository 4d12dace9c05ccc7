//! Recording-account commands against the store: listing, edits, enabling,
//! recording the outcome of live-status checks, and reading the cookie a
//! check sends.

use vstd::prelude::*;
use crate::database::{Db, account_inserted, account_changed, account_logged_at, account_read_at, account_logs_from_rows, first_value};
use crate::statements::{
    StoreOp, SqlArg, text_arg, opt_arg, flag_arg, fresh_id, stamp, reply, answer, asked, ran, lemma_prefix_index,
    SQL_ACCOUNT_CHECK_RESULT, SQL_APPEND_ACCOUNT_LOG, SQL_LIST_ACCOUNTS, SQL_LIST_ACCOUNT_LOGS, SQL_LIST_RUNS,
    SQL_ACCOUNT_BY_ID, SQL_SET_ACCOUNT_ENABLED, SQL_DELETE_ACCOUNT_LOGS, SQL_DELETE_ACCOUNT, SQL_ACCOUNT_LOGS_FOR,
    SQL_GET_META, SQL_LIST_ENABLED_ACCOUNTS, tried,
};
use crate::settings::{setting_key_text, SettingKey};
use crate::rows::{accounts_from_rows, runs_from_rows, account_row};
use crate::error::{AppError, ErrorKind, validation, validation_error};
use crate::models::{
    RecordingAccountItem, RecordingAccountLogEntry, RecordingAccountsSnapshot,
    RecordingAccountCreatePayload, RecordingAccountUpdatePayload, RecordingLiveStatusResult,
};
use crate::recording::{
    normalize_cookie, validate_account_create, validate_account_update, missing_account_field,
    AccountCheckPlan, plan_checked_status, plan_failed_check, plan_missing_cookie, CheckPlanView, plan_view,
    checked_plan, failed_plan, missing_cookie_plan,
    unique_trimmed_ids, missing_cookie_error, unique_ids_spec,
};
use crate::cookie::{normalize_cookie_spec, law_normalize_cookie_idempotent};
use crate::scheduler::{recording_cookie_key, scheduler_cookie_key};
use crate::submit::{is_supported_platform, platform_error_message, views};
use crate::text::{opt_view, trim_spec, starts_with_spec};
use crate::ui::{clamp_or_default, clamp_spec, required_id};

verus! {

/// The account-log and run limits of a snapshot: 50 and 12 by default, kept
/// within 1..=200 and 1..=100.
pub fn snapshot_limits(log_limit: Option<u32>, run_limit: Option<u32>) -> (r: (u32, u32))
    ensures
        r.0 == clamp_spec(log_limit, 50, 1, 200),
        r.1 == clamp_spec(run_limit, 12, 1, 100),
{
    (clamp_or_default(log_limit, 50, 1, 200), clamp_or_default(run_limit, 12, 1, 100))
}

/// Every account, the most recent account logs and the most recent runs.
pub fn recording_accounts_snapshot(db: &mut Db, log_limit: Option<u32>, run_limit: Option<u32>) -> (r: Result<RecordingAccountsSnapshot, AppError>)
    ensures
        r matches Err(e) ==> e@.0 == ErrorKind::Database,
        final(db).path_view() == old(db).path_view(),
        old(db).ops().is_prefix_of(final(db).ops()),
        r matches Ok(snap) ==> {
            let n = old(db).ops().len() as int;
            let f = final(db).ops();
            &&& f.len() == n + 3
            &&& f[n] == StoreOp::Query(SQL_LIST_ACCOUNTS@, seq![], Some(reply(f[n])))
            &&& accounts_from_rows(reply(f[n]), snap.accounts@)
            &&& f[n + 1] == StoreOp::Query(SQL_LIST_ACCOUNT_LOGS@, seq![SqlArg::Integer(clamp_spec(log_limit, 50, 1, 200) as i64)], Some(reply(f[n + 1])))
            &&& account_logs_from_rows(reply(f[n + 1]), snap.logs@)
            &&& f[n + 2] == StoreOp::Query(SQL_LIST_RUNS@, seq![SqlArg::Integer(clamp_spec(run_limit, 12, 1, 100) as i64)], Some(reply(f[n + 2])))
            &&& runs_from_rows(reply(f[n + 2]), snap.runs@)
        },
{
    let (logs_n, runs_n) = snapshot_limits(log_limit, run_limit);
    let accounts = db.list_recording_accounts()?;
    let logs = db.list_recording_account_logs(logs_n)?;
    let runs = db.list_recording_runs(runs_n)?;
    Ok(RecordingAccountsSnapshot { accounts, logs, runs })
}

/// Adds an account after checking it, and logs the addition.
pub fn recording_account_create(db: &mut Db, payload: &RecordingAccountCreatePayload) -> (r: Result<RecordingAccountItem, AppError>)
    ensures
        !is_supported_platform(payload.platform@) ==> (r matches Err(e) && e@ == validation_error(platform_error_message())),
        is_supported_platform(payload.platform@) ==> match missing_account_field(payload.account_input@, payload.account_name@, payload.account_uid@) {
            Some(m) => r matches Err(e) && e@ == validation_error(m),
            None => true,
        },
        r matches Err(e) ==> e@.0 == ErrorKind::Validation || e@.0 == ErrorKind::Database,
        is_supported_platform(payload.platform@) && missing_account_field(payload.account_input@, payload.account_name@, payload.account_uid@) is None
            ==> (r matches Err(e) ==> e@.0 == ErrorKind::Database || e@ == validation_error("recording account already exists"@)),
        final(db).path_view() == old(db).path_view(),
        old(db).ops().is_prefix_of(final(db).ops()),
        !(is_supported_platform(payload.platform@) && missing_account_field(payload.account_input@, payload.account_name@, payload.account_uid@) is None)
            ==> final(db).ops() == old(db).ops(),
        r matches Ok(a) ==> {
            let n = old(db).ops().len() as int;
            &&& final(db).ops().len() == n + 4
            &&& account_inserted(old(db).ops(), final(db).ops().take(n + 3), *payload, a)
            &&& account_logged_at(final(db).ops(), n + 3, a.id@, "success"@, "录制账号已添加到列表。"@)
        },
{
    validate_account_create(payload)?;
    let account = db.insert_recording_account(payload)?;
    let ghost mid = db.ops();
    db.append_recording_account_log(account.id.as_str(), "success", "录制账号已添加到列表。")?;
    assert(db.ops().take(mid.len() as int) =~= mid);
    Ok(account)
}

/// The account with the given id (trimmed); a blank id or an unknown account
/// is refused.
pub fn recording_account_detail(db: &mut Db, account_id: &str) -> (r: Result<RecordingAccountItem, AppError>)
    ensures
        trim_spec(account_id@).len() == 0 ==> (r matches Err(e) && e@ == validation_error("account_id is required"@)),
        r matches Err(e) ==> e@.0 == ErrorKind::Database || e@ == validation_error("account_id is required"@)
            || e@ == validation_error("recording account not found"@),
        trim_spec(account_id@).len() > 0 ==> (r matches Err(e) ==> e@.0 == ErrorKind::Database
            || e@ == validation_error("recording account not found"@)),
        final(db).path_view() == old(db).path_view(),
        old(db).ops().is_prefix_of(final(db).ops()),
        trim_spec(account_id@).len() == 0 ==> final(db).ops() == old(db).ops(),
        trim_spec(account_id@).len() > 0 && (r is Ok || (r matches Err(e) && e@ == validation_error("recording account not found"@))) ==>
            asked(old(db).ops(), final(db).ops(), SQL_ACCOUNT_BY_ID@, seq![text_arg(trim_spec(account_id@))]),
        r matches Ok(a) ==> answer(final(db).ops()).len() > 0 && account_row(answer(final(db).ops())[0], a),
        trim_spec(account_id@).len() > 0 && (r matches Err(e) && e@ == validation_error("recording account not found"@)) ==>
            answer(final(db).ops()).len() == 0,
{
    let trimmed = required_id(account_id, "account_id is required")?;
    match db.get_recording_account(trimmed.as_str())? {
        Some(a) => Ok(a),
        None => Err(validation("recording account not found")),
    }
}

/// Changes an account after checking the change, and logs it.
pub fn recording_account_update(db: &mut Db, payload: &RecordingAccountUpdatePayload) -> (r: Result<RecordingAccountItem, AppError>)
    ensures
        !is_supported_platform(payload.platform@) ==> (r matches Err(e) && e@ == validation_error(platform_error_message())),
        is_supported_platform(payload.platform@) && trim_spec(payload.account_id@).len() == 0
            ==> (r matches Err(e) && e@ == validation_error("accountId is required"@)),
        is_supported_platform(payload.platform@) && trim_spec(payload.account_id@).len() > 0 ==> match missing_account_field(
            payload.account_input@,
            payload.account_name@,
            payload.account_uid@,
        ) {
            Some(m) => r matches Err(e) && e@ == validation_error(m),
            None => true,
        },
        r matches Err(e) ==> e@.0 == ErrorKind::Validation || e@.0 == ErrorKind::Database,
        is_supported_platform(payload.platform@) && trim_spec(payload.account_id@).len() > 0 && missing_account_field(
            payload.account_input@,
            payload.account_name@,
            payload.account_uid@,
        ) is None ==> (r matches Err(e) ==> e@.0 == ErrorKind::Database || e@ == validation_error("recording account already exists"@)),
        final(db).path_view() == old(db).path_view(),
        old(db).ops().is_prefix_of(final(db).ops()),
        !(is_supported_platform(payload.platform@) && trim_spec(payload.account_id@).len() > 0 && missing_account_field(
            payload.account_input@, payload.account_name@, payload.account_uid@) is None) ==> final(db).ops() == old(db).ops(),
        r matches Ok(a) ==> {
            let n = old(db).ops().len() as int;
            &&& final(db).ops().len() == n + 4
            &&& account_changed(old(db).ops(), final(db).ops().take(n + 3), *payload, a)
            &&& account_logged_at(final(db).ops(), n + 3, a.id@, "info"@, "录制账号配置已更新。"@)
        },
{
    validate_account_update(payload)?;
    let account = db.update_recording_account(payload)?;
    let ghost mid = db.ops();
    db.append_recording_account_log(account.id.as_str(), "info", "录制账号配置已更新。")?;
    assert(db.ops().take(mid.len() as int) =~= mid);
    Ok(account)
}

/// Stores whether an account is enabled; gives the trimmed id. A blank id is
/// refused. Stopping a running recorder of a disabled account, and
/// `finish_account_enable_change`, come next.
pub fn recording_account_set_enabled(db: &mut Db, account_id: &str, enabled: bool) -> (r: Result<String, AppError>)
    ensures
        r is Err <== trim_spec(account_id@).len() == 0,
        trim_spec(account_id@).len() == 0 ==> (r matches Err(e) && e@ == validation_error("account_id is required"@)),
        r matches Ok(id) ==> id@ == trim_spec(account_id@),
        r matches Err(e) ==> e@.0 == ErrorKind::Database || e@ == validation_error("account_id is required"@),
        trim_spec(account_id@).len() > 0 ==> (r matches Err(e) ==> e@.0 == ErrorKind::Database),
        final(db).path_view() == old(db).path_view(),
        old(db).ops().is_prefix_of(final(db).ops()),
        trim_spec(account_id@).len() == 0 ==> final(db).ops() == old(db).ops(),
        r matches Ok(id) ==> ran(old(db).ops(), final(db).ops(), SQL_SET_ACCOUNT_ENABLED@,
            seq![text_arg(id@), flag_arg(enabled), text_arg(if enabled { "watching"@ } else { "idle"@ }), text_arg(stamp(final(db).ops().last()))]),
{
    let trimmed = required_id(account_id, "account_id is required")?;
    db.set_recording_account_enabled(trimmed.as_str(), enabled)?;
    Ok(trimmed)
}

/// Logs an enable change and gives the account as it now stands.
pub fn finish_account_enable_change(db: &mut Db, account_id: &str, enabled: bool) -> (r: Result<RecordingAccountItem, AppError>)
    ensures
        r matches Err(e) ==> e@.0 == ErrorKind::Database || e@ == validation_error("recording account not found"@),
        final(db).path_view() == old(db).path_view(),
        old(db).ops().is_prefix_of(final(db).ops()),
        r is Ok || (r matches Err(e) && e@.0 != ErrorKind::Database) ==> {
            let n = old(db).ops().len() as int;
            &&& final(db).ops().len() == n + 2
            &&& account_logged_at(final(db).ops(), n, account_id@,
                if enabled { "info"@ } else { "warning"@ }, if enabled { "录制账号已启用。"@ } else { "录制账号已停用。"@ })
            &&& final(db).ops()[n + 1] == StoreOp::Query(SQL_ACCOUNT_BY_ID@, seq![text_arg(account_id@)], Some(answer(final(db).ops())))
        },
        r matches Ok(a) ==> answer(final(db).ops()).len() > 0 && account_row(answer(final(db).ops())[0], a),
        r matches Err(e) && e@.0 != ErrorKind::Database ==> answer(final(db).ops()).len() == 0,
{
    let (level, message) = if enabled {
        ("info", "录制账号已启用。")
    } else {
        ("warning", "录制账号已停用。")
    };
    db.append_recording_account_log(account_id, level, message)?;
    match db.get_recording_account(account_id)? {
        Some(a) => Ok(a),
        None => Err(validation("recording account not found")),
    }
}

/// Deletes an account and its logs; a blank id is refused.
pub fn recording_account_delete(db: &mut Db, account_id: &str) -> (r: Result<(), AppError>)
    ensures
        trim_spec(account_id@).len() == 0 ==> (r matches Err(e) && e@ == validation_error("account_id is required"@)),
        r matches Err(e) ==> e@.0 == ErrorKind::Database || e@ == validation_error("account_id is required"@),
        trim_spec(account_id@).len() > 0 ==> (r matches Err(e) ==> e@.0 == ErrorKind::Database),
        final(db).path_view() == old(db).path_view(),
        old(db).ops().is_prefix_of(final(db).ops()),
        trim_spec(account_id@).len() == 0 ==> final(db).ops() == old(db).ops(),
        r is Ok ==> final(db).ops() == old(db).ops()
            .push(StoreOp::Execute(SQL_DELETE_ACCOUNT_LOGS@, seq![text_arg(trim_spec(account_id@))]))
            .push(StoreOp::Execute(SQL_DELETE_ACCOUNT@, seq![text_arg(trim_spec(account_id@))])),
{
    let trimmed = required_id(account_id, "account_id is required")?;
    db.delete_recording_account(trimmed.as_str())
}

/// The log limit of one account's log view: 100 by default, kept within 1..=500.
pub fn account_log_limit(limit: Option<u32>) -> (r: u32)
    ensures
        r == clamp_spec(limit, 100, 1, 500),
{
    clamp_or_default(limit, 100, 1, 500)
}

/// The most recent log lines of one account; a blank id is refused.
pub fn recording_account_logs(db: &mut Db, account_id: &str, limit: Option<u32>) -> (r: Result<Vec<RecordingAccountLogEntry>, AppError>)
    ensures
        trim_spec(account_id@).len() == 0 ==> (r matches Err(e) && e@ == validation_error("account_id is required"@)),
        r matches Err(e) ==> e@.0 == ErrorKind::Database || e@ == validation_error("account_id is required"@),
        trim_spec(account_id@).len() > 0 ==> (r matches Err(e) ==> e@.0 == ErrorKind::Database),
        final(db).path_view() == old(db).path_view(),
        old(db).ops().is_prefix_of(final(db).ops()),
        trim_spec(account_id@).len() == 0 ==> final(db).ops() == old(db).ops(),
        r matches Ok(v) ==> asked(old(db).ops(), final(db).ops(), SQL_ACCOUNT_LOGS_FOR@,
            seq![text_arg(trim_spec(account_id@)), SqlArg::Integer(clamp_spec(limit, 100, 1, 500) as i64)])
            && account_logs_from_rows(answer(final(db).ops()), v@),
{
    let trimmed = required_id(account_id, "account_id is required")?;
    let n = account_log_limit(limit);
    db.list_recording_logs_for_account(trimmed.as_str(), n)
}

proof fn lemma_empty_cookie_normalized()
    ensures
        normalize_cookie_spec(Seq::<char>::empty()) == Seq::<char>::empty(),
{
    assert(crate::cookie::cookie_pieces(Seq::<char>::empty()) =~= Seq::<Seq<char>>::empty());
}

/// The cookie a stored setting gives: its normalized text, or empty when
/// nothing is stored.
pub open spec fn cookie_from_setting_spec(stored: Option<Seq<char>>) -> Seq<char> {
    match stored {
        Some(v) => normalize_cookie_spec(v),
        None => Seq::empty(),
    }
}

/// The cookie a stored setting gives.
pub fn cookie_from_setting(stored: Option<String>) -> (r: String)
    ensures
        r@ == cookie_from_setting_spec(opt_view(stored)),
        normalize_cookie_spec(r@) == r@,
{
    match stored {
        Some(v) => {
            proof {
                law_normalize_cookie_idempotent(v@);
            }
            normalize_cookie(v.as_str())
        },
        None => {
            proof {
                lemma_empty_cookie_normalized();
            }
            String::new()
        },
    }
}

/// The cookie setting a manual check reads for `platform`: douyin's for
/// `douyin`, tiktok's otherwise.
pub open spec fn recording_cookie_key_spec(platform: Seq<char>) -> SettingKey {
    if platform == "douyin"@ {
        SettingKey::DouyinCookie
    } else {
        SettingKey::TiktokCookie
    }
}

/// The cookie a manual check sends for `platform` (douyin's for `douyin`,
/// tiktok's otherwise), as `cookie_from_setting` gives it; empty when it
/// cannot be read.
pub fn resolve_recording_cookie(db: &mut Db, platform: &str) -> (r: String)
    ensures
        normalize_cookie_spec(r@) == r@,
        final(db).path_view() == old(db).path_view(),
        tried(old(db).ops(), final(db).ops(), SQL_GET_META@, seq![text_arg(setting_key_text(recording_cookie_key_spec(platform@)))]),
        r@ == cookie_from_setting_spec(first_value(answer(final(db).ops()))),
{
    let key = recording_cookie_key(platform);
    match db.get_meta(key.as_str()) {
        Ok(stored) => cookie_from_setting(stored),
        Err(_) => cookie_from_setting(None),
    }
}

/// The cookie the scheduler's checks send: douyin's, as
/// `cookie_from_setting` gives it, for douyin accounts; empty for other
/// accounts, or when it cannot be read.
pub fn resolve_scheduler_cookie(db: &mut Db, platform: &str) -> (r: String)
    ensures
        platform@ != "douyin"@ ==> r@.len() == 0 && final(db).ops() == old(db).ops(),
        normalize_cookie_spec(r@) == r@,
        final(db).path_view() == old(db).path_view(),
        platform@ == "douyin"@ ==> tried(old(db).ops(), final(db).ops(), SQL_GET_META@, seq![text_arg(setting_key_text(SettingKey::DouyinCookie))])
            && r@ == cookie_from_setting_spec(first_value(answer(final(db).ops()))),
{
    match scheduler_cookie_key(platform) {
        Some(key) => match db.get_meta(key.as_str()) {
            Ok(stored) => cookie_from_setting(stored),
            Err(_) => cookie_from_setting(None),
        },
        None => cookie_from_setting(None),
    }
}

/// A profile to resolve: the trimmed platform and link, and the cookie to
/// send.
#[derive(Debug)]
pub struct ProfileRequest {
    pub platform: String,
    pub source_url: String,
    pub cookie: String,
}

/// Prepares a profile resolution: checks the request as
/// `validate_profile_request`, then reads the platform's cookie (douyin's
/// for `douyin`, tiktok's for `tiktok`), normalized; a missing or empty
/// cookie is refused.
pub fn prepare_profile_resolution(db: &mut Db, platform: &str, source_url: &str) -> (r: Result<ProfileRequest, AppError>)
    ensures
        !is_supported_platform(platform@) ==> (r matches Err(e) && e@ == validation_error(platform_error_message())),
        is_supported_platform(platform@) && trim_spec(source_url@).len() == 0
            ==> (r matches Err(e) && e@ == validation_error("sourceUrl is required"@)),
        r matches Ok(p) ==> p.platform@ == trim_spec(platform@) && p.source_url@ == trim_spec(source_url@)
            && p.cookie@.len() > 0 && normalize_cookie_spec(p.cookie@) == p.cookie@,
        r matches Err(e) ==> e@.0 == ErrorKind::Validation || e@.0 == ErrorKind::Database,
        is_supported_platform(platform@) && trim_spec(source_url@).len() > 0
            && !(starts_with_spec(trim_spec(source_url@), "http://"@) || starts_with_spec(trim_spec(source_url@), "https://"@))
            ==> (r matches Err(e) && e@ == validation_error("sourceUrl must be an http or https url"@)),
        is_supported_platform(platform@) && trim_spec(source_url@).len() > 0
            && (starts_with_spec(trim_spec(source_url@), "http://"@) || starts_with_spec(trim_spec(source_url@), "https://"@))
            ==> (r matches Err(e) ==> e@.0 == ErrorKind::Database || e@ == validation_error("cookie is required for profile resolution"@)),
        final(db).path_view() == old(db).path_view(),
        !(is_supported_platform(platform@) && trim_spec(source_url@).len() > 0
            && (starts_with_spec(trim_spec(source_url@), "http://"@) || starts_with_spec(trim_spec(source_url@), "https://"@)))
            ==> final(db).ops() == old(db).ops(),
        r matches Ok(p) ==> asked(old(db).ops(), final(db).ops(), SQL_GET_META@,
            seq![text_arg(setting_key_text(recording_cookie_key_spec(trim_spec(platform@))))])
            && p.cookie@ == cookie_from_setting_spec(first_value(answer(final(db).ops()))),
        is_supported_platform(platform@) && trim_spec(source_url@).len() > 0
            && (starts_with_spec(trim_spec(source_url@), "http://"@) || starts_with_spec(trim_spec(source_url@), "https://"@))
            && (r matches Err(e) && e@ == validation_error("cookie is required for profile resolution"@)) ==>
            cookie_from_setting_spec(first_value(answer(final(db).ops()))).len() == 0,
{
    let (p, u) = crate::recording::validate_profile_request(platform, source_url)?;
    let key = recording_cookie_key(p.as_str());
    let cookie = cookie_from_setting(db.get_meta(key.as_str())?);
    if cookie.as_str().is_empty() {
        return Err(validation("cookie is required for profile resolution"));
    }
    Ok(ProfileRequest { platform: p, source_url: u, cookie })
}

/// From position `n` of `ops` on, an account is asked for and found as `a`.
pub open spec fn account_found(ops: Seq<StoreOp>, n: int, a: RecordingAccountItem) -> bool {
    exists|j: int| n <= j && #[trigger] account_read_at(ops, j, a)
}

/// The accounts a check covers: every enabled account when no ids (or an
/// empty list) are given; else the known accounts among the distinct
/// non-blank ids, trimmed, in order.
pub fn resolve_recording_accounts_to_check(db: &mut Db, account_ids: &Option<Vec<String>>) -> (r: Result<Vec<RecordingAccountItem>, AppError>)
    ensures
        r matches Ok(v) ==> match account_ids {
            Some(ids) => ids@.len() > 0 ==> v@.len() <= unique_ids_spec(views(ids@)).len() <= ids@.len(),
            None => true,
        },
        account_ids matches Some(ids) && ids@.len() > 0 && unique_ids_spec(views(ids@)).len() == 0
            ==> (r matches Ok(v) && v@.len() == 0),
        r matches Err(e) ==> e@.0 == ErrorKind::Database,
        final(db).path_view() == old(db).path_view(),
        old(db).ops().is_prefix_of(final(db).ops()),
        (account_ids is None || (account_ids matches Some(ids) && ids@.len() == 0)) ==> (r matches Ok(v) ==>
            asked(old(db).ops(), final(db).ops(), SQL_LIST_ENABLED_ACCOUNTS@, seq![]) && accounts_from_rows(answer(final(db).ops()), v@)),
        account_ids matches Some(ids) && ids@.len() > 0 ==> (r matches Ok(v) ==>
            forall|k: int| 0 <= k < v@.len() ==> #[trigger] account_found(final(db).ops(), old(db).ops().len() as int, v@[k])),
{
    let ids = match account_ids {
        None => return db.list_enabled_recording_accounts(),
        Some(ids) => ids,
    };
    if ids.len() == 0 {
        return db.list_enabled_recording_accounts();
    }
    let unique = unique_trimmed_ids(ids);
    proof {
        crate::recording::lemma_unique_ids_len(crate::submit::views(ids@));
    }
    assert(crate::submit::views(unique@).len() == unique@.len());
    let mut accounts: Vec<RecordingAccountItem> = Vec::new();
    let ghost n = db.ops().len() as int;
    let mut i: usize = 0;
    while i < unique.len()
        invariant
            i <= unique@.len() <= ids@.len(),
            unique@.len() == unique_ids_spec(views(ids@)).len(),
            *account_ids == Some(*ids),
            accounts@.len() <= i,
            db.path_view() == old(db).path_view(),
            old(db).ops().is_prefix_of(db.ops()),
            n == old(db).ops().len(),
            forall|k: int| 0 <= k < accounts@.len() ==> #[trigger] account_found(db.ops(), n, accounts@[k]),
        decreases unique.len() - i,
    {
        let ghost before = db.ops();
        let ghost old_accounts = accounts@;
        let found = db.get_recording_account(unique[i].as_str());
        proof {
            assert forall|k: int| 0 <= k < old_accounts.len() implies #[trigger] account_found(db.ops(), n, old_accounts[k]) by {
                assert(account_found(before, n, old_accounts[k]));
                let j = choose|j: int| n <= j && #[trigger] account_read_at(before, j, old_accounts[k]);
                lemma_prefix_index(before, db.ops(), j);
                assert(account_read_at(db.ops(), j, old_accounts[k]));
            }
        }
        if let Some(a) = found? {
            proof {
                assert(account_read_at(db.ops(), before.len() as int, a));
            }
            accounts.push(a);
        }
        i += 1;
    }
    Ok(accounts)
}

/// `after` is `before` with plan `p` written to account `id`: the check
/// result stored, then the log line added if the plan has one.
pub open spec fn check_written(before: Seq<StoreOp>, after: Seq<StoreOp>, id: Seq<char>, p: CheckPlanView) -> bool {
    let n = before.len() as int;
    &&& after.len() > n
    &&& after[n] == StoreOp::Execute(SQL_ACCOUNT_CHECK_RESULT@,
        seq![text_arg(id), text_arg(p.0), opt_arg(p.1), opt_arg(p.2), text_arg(p.3), opt_arg(p.4)])
    &&& match p.5 {
        Some((level, message)) => after.len() == n + 2 && after[n + 1] == StoreOp::Execute(SQL_APPEND_ACCOUNT_LOG@,
            seq![text_arg(fresh_id(after[n + 1])), text_arg(id), text_arg(level), text_arg(message), text_arg(stamp(after[n + 1]))]),
        None => after.len() == n + 1,
    }
}

/// Writes what a check found to the account, and its log line if any.
pub fn apply_account_check(db: &mut Db, account_id: &str, plan: &AccountCheckPlan) -> (r: Result<(), AppError>)
    ensures
        r matches Err(e) ==> e@.0 == ErrorKind::Database,
        final(db).path_view() == old(db).path_view(),
        old(db).ops().is_prefix_of(final(db).ops()),
        r is Ok ==> check_written(old(db).ops(), final(db).ops(), account_id@, plan_view(*plan)),
{
    db.update_recording_account_check_result(
        account_id,
        plan.update.status.as_str(),
        &plan.update.room_id,
        &plan.update.web_rid,
        plan.update.checked_at.as_str(),
        &plan.update.error,
    )?;
    match &plan.log {
        Some(l) => db.append_recording_account_log(account_id, l.level.as_str(), l.message.as_str()),
        None => Ok(()),
    }
}

/// Records a manual check of an account without a usable cookie: the account
/// shows the missing-cookie error and a log line is always written.
pub fn record_manual_missing_cookie(db: &mut Db, account: &RecordingAccountItem, checked_at: &str) -> (r: Result<(), AppError>)
    ensures
        r matches Err(e) ==> e@.0 == ErrorKind::Database,
        final(db).path_view() == old(db).path_view(),
        old(db).ops().is_prefix_of(final(db).ops()),
        r is Ok ==> check_written(old(db).ops(), final(db).ops(), account.id@, missing_cookie_plan(*account, checked_at@, true)),
{
    let plan = plan_missing_cookie(account, checked_at, true);
    assert(plan_view(plan) == missing_cookie_plan(*account, checked_at@, true));
    apply_account_check(db, account.id.as_str(), &plan)
}

/// Records the outcome of a manual check: the reported live status, or the
/// failure of the checker (`Err` with its message) at `checked_at`.
pub fn record_manual_check(db: &mut Db, account: &RecordingAccountItem, checked_at: &str, outcome: &Result<RecordingLiveStatusResult, String>) -> (r: Result<(), AppError>)
    ensures
        r matches Err(e) ==> e@.0 == ErrorKind::Database,
        final(db).path_view() == old(db).path_view(),
        old(db).ops().is_prefix_of(final(db).ops()),
        r is Ok ==> check_written(old(db).ops(), final(db).ops(), account.id@, match outcome {
            Ok(status) => checked_plan(*account, *status),
            Err(message) => failed_plan(*account, message@, checked_at@),
        }),
{
    let plan = match outcome {
        Ok(status) => plan_checked_status(account, status),
        Err(message) => plan_failed_check(account, message.as_str(), checked_at),
    };
    assert(plan_view(plan) == match outcome {
        Ok(status) => checked_plan(*account, *status),
        Err(message) => failed_plan(*account, message@, checked_at@),
    });
    apply_account_check(db, account.id.as_str(), &plan)
}

/// A scheduler check of an account without a usable cookie: the account
/// shows the missing-cookie error, logged only when it is news, and the check
/// fails with that error.
pub fn record_scheduler_missing_cookie(db: &mut Db, account: &RecordingAccountItem, checked_at: &str) -> (r: AppError)
    ensures
        r@.0 == ErrorKind::Database || r@ == validation_error(missing_cookie_error()),
        final(db).path_view() == old(db).path_view(),
        old(db).ops().is_prefix_of(final(db).ops()),
        r@.0 != ErrorKind::Database ==> check_written(old(db).ops(), final(db).ops(), account.id@, missing_cookie_plan(*account, checked_at@, false)),
{
    let plan = plan_missing_cookie(account, checked_at, false);
    assert(plan_view(plan) == missing_cookie_plan(*account, checked_at@, false));
    match apply_account_check(db, account.id.as_str(), &plan) {
        Err(e) => e,
        Ok(()) => validation("cookie is required for live status check"),
    }
}

/// Records a live status the scheduler's check reported, and gives it back.
pub fn record_scheduler_check(db: &mut Db, account: &RecordingAccountItem, status: RecordingLiveStatusResult) -> (r: Result<RecordingLiveStatusResult, AppError>)
    ensures
        r matches Ok(s) ==> s == status,
        r matches Err(e) ==> e@.0 == ErrorKind::Database,
        final(db).path_view() == old(db).path_view(),
        old(db).ops().is_prefix_of(final(db).ops()),
        r is Ok ==> check_written(old(db).ops(), final(db).ops(), account.id@, checked_plan(*account, status)),
{
    let plan = plan_checked_status(account, &status);
    assert(plan_view(plan) == checked_plan(*account, status));
    apply_account_check(db, account.id.as_str(), &plan)?;
    Ok(status)
}

/// How a manual check of one account goes on.
#[derive(Debug)]
pub enum ManualCheckStart {
    /// The account is disabled: it is not checked.
    Skip,
    /// No usable cookie: the missing-cookie error is recorded on the account.
    Recorded,
    /// The live status is to be asked for with this cookie.
    Send(String),
}

/// Starts a manual check of `account` at `checked_at`: a disabled account is
/// skipped; else its platform's cookie is read, and without one the
/// missing-cookie error is recorded (always logged); else the check goes on
/// with that cookie.
pub fn start_manual_check(db: &mut Db, account: &RecordingAccountItem, checked_at: &str) -> (r: Result<ManualCheckStart, AppError>)
    ensures
        r matches Err(e) ==> e@.0 == ErrorKind::Database,
        final(db).path_view() == old(db).path_view(),
        old(db).ops().is_prefix_of(final(db).ops()),
        !account.enabled ==> (r matches Ok(ManualCheckStart::Skip) && final(db).ops() == old(db).ops()),
        account.enabled ==> {
            let n = old(db).ops().len() as int;
            let f = final(db).ops();
            let cookie = cookie_from_setting_spec(first_value(reply(f[n])));
            &&& f.len() > n
            &&& tried(old(db).ops(), f.take(n + 1), SQL_GET_META@, seq![text_arg(setting_key_text(recording_cookie_key_spec(account.platform@)))])
            &&& cookie.len() > 0 ==> (f.len() == n + 1 && (r matches Ok(ManualCheckStart::Send(c)) && c@ == cookie))
            &&& cookie.len() == 0 ==> r is Err || (r matches Ok(ManualCheckStart::Recorded)
                && check_written(f.take(n + 1), f, account.id@, missing_cookie_plan(*account, checked_at@, true)))
        },
{
    if !account.enabled {
        return Ok(ManualCheckStart::Skip);
    }
    let ghost n = db.ops().len() as int;
    let cookie = resolve_recording_cookie(db, account.platform.as_str());
    let ghost s1 = db.ops();
    if cookie.as_str().is_empty() {
        let r = record_manual_missing_cookie(db, account, checked_at);
        proof {
            assert forall|j: int| 0 <= j < n + 1 implies db.ops().take(n + 1)[j] == s1[j] by {
                lemma_prefix_index(s1, db.ops(), j);
            }
            assert(db.ops().take(n + 1) =~= s1);
        }
        r?;
        return Ok(ManualCheckStart::Recorded);
    }
    assert(db.ops().take(n + 1) =~= s1);
    Ok(ManualCheckStart::Send(cookie))
}

/// Starts a scheduler check of `account` at `checked_at`: reads the cookie
/// the scheduler sends; without one, records the missing-cookie error
/// (logged only when it is news) and fails with it; else gives the cookie.
pub fn start_scheduler_check(db: &mut Db, account: &RecordingAccountItem, checked_at: &str) -> (r: Result<String, AppError>)
    ensures
        final(db).path_view() == old(db).path_view(),
        old(db).ops().is_prefix_of(final(db).ops()),
        r matches Ok(c) ==> c@.len() > 0 && normalize_cookie_spec(c@) == c@,
        r matches Err(e) ==> e@.0 == ErrorKind::Database || e@ == validation_error(missing_cookie_error()),
        account.platform@ != "douyin"@ ==> r is Err && (r matches Err(e) && e@.0 != ErrorKind::Database
            ==> check_written(old(db).ops(), final(db).ops(), account.id@, missing_cookie_plan(*account, checked_at@, false))),
        account.platform@ == "douyin"@ ==> {
            let n = old(db).ops().len() as int;
            let f = final(db).ops();
            let cookie = cookie_from_setting_spec(first_value(reply(f[n])));
            &&& f.len() > n
            &&& tried(old(db).ops(), f.take(n + 1), SQL_GET_META@, seq![text_arg(setting_key_text(SettingKey::DouyinCookie))])
            &&& cookie.len() > 0 ==> (f.len() == n + 1 && (r matches Ok(c) && c@ == cookie))
            &&& cookie.len() == 0 ==> r is Err && (r matches Err(e) && e@.0 != ErrorKind::Database
                ==> check_written(f.take(n + 1), f, account.id@, missing_cookie_plan(*account, checked_at@, false)))
        },
{
    let ghost n = db.ops().len() as int;
    let cookie = resolve_scheduler_cookie(db, account.platform.as_str());
    let ghost s1 = db.ops();
    if cookie.as_str().is_empty() {
        let e = record_scheduler_missing_cookie(db, account, checked_at);
        proof {
            assert forall|j: int| 0 <= j < s1.len() implies db.ops().take(s1.len() as int)[j] == s1[j] by {
                lemma_prefix_index(s1, db.ops(), j);
            }
            assert(db.ops().take(s1.len() as int) =~= s1);
        }
        return Err(e);
    }
    assert(db.ops().take(n + 1) =~= s1);
    Ok(cookie)
}

} // verus!
