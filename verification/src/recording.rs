//! Recording accounts: validation of account edits, the status and log line
//! that a live-status check leaves, and which accounts a check covers.

use vstd::prelude::*;
use crate::text::{opt_view, chars_of, extend_str, string_from_chars, trim_str, trim_spec, str_eq};
use crate::cookie::{normalize_cookie_text, normalize_cookie_spec};
use crate::error::{AppError, validation, validation_error};
use crate::models::{
    RecordingAccountItem, RecordingLiveStatusResult, RecordingAccountCreatePayload,
    RecordingAccountUpdatePayload,
};
use crate::submit::{is_supported_platform, is_supported_platform_text, platform_error_message};

verus! {

/// Normalizes a recording cookie: trimmed non-empty lines joined by spaces.
pub fn normalize_cookie(value: &str) -> (r: String)
    ensures
        r@ == normalize_cookie_spec(value@),
{
    normalize_cookie_text(value)
}

/// Accepts `douyin` and `tiktok`, trimmed.
pub fn validate_recording_platform(platform: &str) -> (r: Result<(), AppError>)
    ensures
        r is Ok <==> is_supported_platform(platform@),
        r matches Err(e) ==> e@ == validation_error(platform_error_message()),
{
    if is_supported_platform_text(platform) {
        Ok(())
    } else {
        Err(validation("platform must be one of douyin/tiktok"))
    }
}

/// The account status a reported live status leads to: `live`, `recording`
/// and `error` stay, anything else is `watching`.
pub open spec fn account_status_spec(status: Seq<char>) -> Seq<char> {
    if status == "live"@ {
        "live"@
    } else if status == "recording"@ {
        "recording"@
    } else if status == "error"@ {
        "error"@
    } else {
        "watching"@
    }
}

/// The account status a reported live status leads to.
pub fn map_recording_account_status(status: &str) -> (r: &'static str)
    ensures
        r@ == account_status_spec(status@),
{
    if str_eq(status, "live") {
        "live"
    } else if str_eq(status, "recording") {
        "recording"
    } else if str_eq(status, "error") {
        "error"
    } else {
        "watching"
    }
}

/// The log line that reports a check's outcome for account `name`.
pub open spec fn check_message_spec(name: Seq<char>, status: Seq<char>, error: Option<Seq<char>>) -> Seq<char> {
    if status == "live"@ {
        name + " 当前正在直播。"@
    } else if status == "recording"@ {
        name + " 当前正在录制中。"@
    } else if status == "error"@ {
        name + " 直播状态异常："@ + match error {
            Some(e) => e,
            None => "未知错误"@,
        }
    } else {
        name + " 当前未开播。"@
    }
}

/// The log line that reports a check's outcome.
pub fn build_recording_check_message(account_name: &str, result: &RecordingLiveStatusResult) -> (r: String)
    ensures
        r@ == check_message_spec(account_name@, result.status@, opt_view(result.error_message)),
{
    let mut v = chars_of(account_name);
    let status = result.status.as_str();
    if str_eq(status, "live") {
        extend_str(&mut v, " 当前正在直播。");
    } else if str_eq(status, "recording") {
        extend_str(&mut v, " 当前正在录制中。");
    } else if str_eq(status, "error") {
        extend_str(&mut v, " 直播状态异常：");
        match &result.error_message {
            Some(e) => extend_str(&mut v, e.as_str()),
            None => extend_str(&mut v, "未知错误"),
        }
    } else {
        extend_str(&mut v, " 当前未开播。");
    }
    string_from_chars(&v)
}

/// Whether a check deserves a log line: an error is logged unless the account
/// already shows the same error; another status is logged when it changes the
/// account's status or clears an error.
pub open spec fn should_log_spec(status: Seq<char>, last_error: Option<Seq<char>>, next_status: Seq<char>, error: Option<Seq<char>>) -> bool {
    if next_status == "error"@ {
        status != "error"@ || last_error != error
    } else {
        status != next_status || last_error is Some
    }
}

fn opt_str_eq(a: &Option<String>, b: &Option<String>) -> (r: bool)
    ensures
        r == (opt_view(*a) == opt_view(*b)),
{
    match (a, b) {
        (Some(x), Some(y)) => str_eq(x.as_str(), y.as_str()),
        (None, None) => true,
        _ => false,
    }
}

/// Whether a check with outcome `next_status` and `error_message` is logged.
pub fn should_append_check_log(account: &RecordingAccountItem, next_status: &str, error_message: &Option<String>) -> (r: bool)
    ensures
        r == should_log_spec(account.status@, opt_view(account.last_error), next_status@, opt_view(*error_message)),
        next_status@ == "error"@ && opt_view(account.last_error) != opt_view(*error_message) ==> r,
        next_status@ == "error"@ && account.status@ != "error"@ ==> r,
        next_status@ == "error"@ && account.status@ == "error"@ && opt_view(account.last_error) == opt_view(*error_message) ==> !r,
        next_status@ != "error"@ ==> (r <==> (account.status@ != next_status@ || account.last_error is Some)),
{
    if str_eq(next_status, "error") {
        return !str_eq(account.status.as_str(), "error") || !opt_str_eq(&account.last_error, error_message);
    }
    !str_eq(account.status.as_str(), next_status) || account.last_error.is_some()
}

/// The level of a check's log line: `success` while recording, else `info`.
pub open spec fn check_level_spec(status: Seq<char>) -> Seq<char> {
    if status == "recording"@ {
        "success"@
    } else {
        "info"@
    }
}

/// The level of a check's log line.
pub fn check_log_level(status: &str) -> (r: &'static str)
    ensures
        r@ == check_level_spec(status@),
{
    if str_eq(status, "recording") {
        "success"
    } else {
        "info"
    }
}

/// What a check writes to an account.
#[derive(Debug)]
pub struct CheckResultUpdate {
    pub status: String,
    pub room_id: Option<String>,
    pub web_rid: Option<String>,
    pub checked_at: String,
    pub error: Option<String>,
}

/// A log line of an account.
#[derive(Debug)]
pub struct AccountLogLine {
    pub level: String,
    pub message: String,
}

/// What a check does: the update to the account and the log line, if any.
#[derive(Debug)]
pub struct AccountCheckPlan {
    pub update: CheckResultUpdate,
    pub log: Option<AccountLogLine>,
}

/// The update that a reported live status makes.
pub open spec fn checked_update_matches(plan: AccountCheckPlan, account: RecordingAccountItem, result: RecordingLiveStatusResult) -> bool {
    &&& plan.update.status@ == account_status_spec(result.status@)
    &&& opt_view(plan.update.room_id) == opt_view(result.account_room_id)
    &&& opt_view(plan.update.web_rid) == opt_view(result.account_web_rid)
    &&& plan.update.checked_at@ == result.checked_at@
    &&& opt_view(plan.update.error) == opt_view(result.error_message)
    &&& (plan.log is Some <==> should_log_spec(
        account.status@,
        opt_view(account.last_error),
        account_status_spec(result.status@),
        opt_view(result.error_message),
    ))
    &&& plan.log matches Some(l) ==> l.level@ == check_level_spec(result.status@) && l.message@
        == check_message_spec(account.account_name@, result.status@, opt_view(result.error_message))
}

fn clone_opt(o: &Option<String>) -> (r: Option<String>)
    ensures
        opt_view(r) == opt_view(*o),
{
    match o {
        Some(s) => Some(s.clone()),
        None => None,
    }
}

/// What a reported live status does to an account: the mapped status, the
/// reported room ids, time and error, and a log line when it is news.
pub fn plan_checked_status(account: &RecordingAccountItem, result: &RecordingLiveStatusResult) -> (plan: AccountCheckPlan)
    ensures
        checked_update_matches(plan, *account, *result),
{
    let next = map_recording_account_status(result.status.as_str());
    let log = if should_append_check_log(account, next, &result.error_message) {
        Some(AccountLogLine {
            level: check_log_level(result.status.as_str()).to_owned(),
            message: build_recording_check_message(account.account_name.as_str(), result),
        })
    } else {
        None
    };
    AccountCheckPlan {
        update: CheckResultUpdate {
            status: next.to_owned(),
            room_id: clone_opt(&result.account_room_id),
            web_rid: clone_opt(&result.account_web_rid),
            checked_at: result.checked_at.clone(),
            error: clone_opt(&result.error_message),
        },
        log,
    }
}

/// What a failed check (the checker itself failed with `message`) does: the
/// account shows `error` with that message, keeps its room ids, and a log
/// line is written unless it already showed that very error.
pub fn plan_failed_check(account: &RecordingAccountItem, message: &str, checked_at: &str) -> (plan: AccountCheckPlan)
    ensures
        plan.update.status@ == "error"@,
        opt_view(plan.update.room_id) == opt_view(account.account_room_id),
        opt_view(plan.update.web_rid) == opt_view(account.account_web_rid),
        plan.update.checked_at@ == checked_at@,
        opt_view(plan.update.error) == Some(message@),
        plan.log is Some <==> (account.status@ != "error"@ || opt_view(account.last_error) != Some(message@)),
        plan.log matches Some(l) ==> l.level@ == "error"@ && l.message@ == account.account_name@ + " 直播状态检测失败："@ + message@,
{
    let error = Some(message.to_owned());
    let log = if !str_eq(account.status.as_str(), "error") || !opt_str_eq(&account.last_error, &error) {
        let mut v = chars_of(account.account_name.as_str());
        extend_str(&mut v, " 直播状态检测失败：");
        extend_str(&mut v, message);
        Some(AccountLogLine { level: "error".to_owned(), message: string_from_chars(&v) })
    } else {
        None
    };
    AccountCheckPlan {
        update: CheckResultUpdate {
            status: "error".to_owned(),
            room_id: clone_opt(&account.account_room_id),
            web_rid: clone_opt(&account.account_web_rid),
            checked_at: checked_at.to_owned(),
            error,
        },
        log,
    }
}

/// The error recorded when no cookie is configured for a check.
pub open spec fn missing_cookie_error() -> Seq<char> {
    "cookie is required for live status check"@
}

/// What a check without a usable cookie does: the account shows `error` with
/// the missing-cookie message and keeps its room ids; the log line is always
/// written when `always_log`, else only when it is news.
pub fn plan_missing_cookie(account: &RecordingAccountItem, checked_at: &str, always_log: bool) -> (plan: AccountCheckPlan)
    ensures
        plan.update.status@ == "error"@,
        opt_view(plan.update.room_id) == opt_view(account.account_room_id),
        opt_view(plan.update.web_rid) == opt_view(account.account_web_rid),
        plan.update.checked_at@ == checked_at@,
        opt_view(plan.update.error) == Some(missing_cookie_error()),
        plan.log is Some <==> (always_log || should_log_spec(account.status@, opt_view(account.last_error), "error"@, Some(missing_cookie_error()))),
        plan.log matches Some(l) ==> l.level@ == "error"@ && l.message@ == "直播状态检测失败：未配置可用 Cookie。"@,
{
    let error = Some("cookie is required for live status check".to_owned());
    let log = if always_log || should_append_check_log(account, "error", &error) {
        Some(AccountLogLine {
            level: "error".to_owned(),
            message: "直播状态检测失败：未配置可用 Cookie。".to_owned(),
        })
    } else {
        None
    };
    AccountCheckPlan {
        update: CheckResultUpdate {
            status: "error".to_owned(),
            room_id: clone_opt(&account.account_room_id),
            web_rid: clone_opt(&account.account_web_rid),
            checked_at: checked_at.to_owned(),
            error,
        },
        log,
    }
}

/// What a plan writes: status, room ids, check time, error, and the log
/// line (level, message) if any.
pub type CheckPlanView = (Seq<char>, Option<Seq<char>>, Option<Seq<char>>, Seq<char>, Option<Seq<char>>, Option<(Seq<char>, Seq<char>)>);

/// What plan `p` writes.
pub open spec fn plan_view(p: AccountCheckPlan) -> CheckPlanView {
    (
        p.update.status@,
        opt_view(p.update.room_id),
        opt_view(p.update.web_rid),
        p.update.checked_at@,
        opt_view(p.update.error),
        match p.log {
            Some(l) => Some((l.level@, l.message@)),
            None => None,
        },
    )
}

/// What a reported live status writes to `account` (see `plan_checked_status`).
pub open spec fn checked_plan(account: RecordingAccountItem, result: RecordingLiveStatusResult) -> CheckPlanView {
    let next = account_status_spec(result.status@);
    (
        next,
        opt_view(result.account_room_id),
        opt_view(result.account_web_rid),
        result.checked_at@,
        opt_view(result.error_message),
        if should_log_spec(account.status@, opt_view(account.last_error), next, opt_view(result.error_message)) {
            Some((check_level_spec(result.status@), check_message_spec(account.account_name@, result.status@, opt_view(result.error_message))))
        } else {
            None
        },
    )
}

/// What a failed check writes to `account` (see `plan_failed_check`).
pub open spec fn failed_plan(account: RecordingAccountItem, message: Seq<char>, checked_at: Seq<char>) -> CheckPlanView {
    (
        "error"@,
        opt_view(account.account_room_id),
        opt_view(account.account_web_rid),
        checked_at,
        Some(message),
        if account.status@ != "error"@ || opt_view(account.last_error) != Some(message) {
            Some(("error"@, account.account_name@ + " 直播状态检测失败："@ + message))
        } else {
            None
        },
    )
}

/// What a check without a usable cookie writes to `account` (see
/// `plan_missing_cookie`).
pub open spec fn missing_cookie_plan(account: RecordingAccountItem, checked_at: Seq<char>, always_log: bool) -> CheckPlanView {
    (
        "error"@,
        opt_view(account.account_room_id),
        opt_view(account.account_web_rid),
        checked_at,
        Some(missing_cookie_error()),
        if always_log || should_log_spec(account.status@, opt_view(account.last_error), "error"@, Some(missing_cookie_error())) {
            Some(("error"@, "直播状态检测失败：未配置可用 Cookie。"@))
        } else {
            None
        },
    )
}

/// A check that reports the same outcome as the check before it writes no
/// new log line, unless a status other than `error` came with an error
/// message (such a check is logged each time).
pub proof fn law_repeated_check_is_not_logged_again(
    account: RecordingAccountItem,
    result: RecordingLiveStatusResult,
    first: AccountCheckPlan,
    after_first: RecordingAccountItem,
    second: AccountCheckPlan,
)
    requires
        account_status_spec(result.status@) == "error"@ || result.error_message is None,
        checked_update_matches(first, account, result),
        after_first.status@ == first.update.status@,
        opt_view(after_first.last_error) == opt_view(first.update.error),
        checked_update_matches(second, after_first, result),
    ensures
        second.log is None,
{
}

// ----- which accounts a check covers -----

/// The distinct non-blank ids of `ids`, trimmed, in order of first appearance.
pub open spec fn unique_ids_spec(ids: Seq<Seq<char>>) -> Seq<Seq<char>>
    decreases ids.len(),
{
    if ids.len() == 0 {
        seq![]
    } else {
        let prev = unique_ids_spec(ids.drop_last());
        let t = trim_spec(ids.last());
        if t.len() == 0 || prev.contains(t) {
            prev
        } else {
            prev.push(t)
        }
    }
}

/// There are no more distinct ids than ids.
pub proof fn lemma_unique_ids_len(ids: Seq<Seq<char>>)
    ensures
        unique_ids_spec(ids).len() <= ids.len(),
    decreases ids.len(),
{
    if ids.len() > 0 {
        lemma_unique_ids_len(ids.drop_last());
    }
}

/// The distinct non-blank ids, trimmed, in order of first appearance.
pub fn unique_trimmed_ids(ids: &Vec<String>) -> (r: Vec<String>)
    ensures
        crate::submit::views(r@) == unique_ids_spec(crate::submit::views(ids@)),
{
    let mut out: Vec<String> = Vec::new();
    let mut i: usize = 0;
    while i < ids.len()
        invariant
            i <= ids.len(),
            crate::submit::views(out@) == unique_ids_spec(crate::submit::views(ids@.take(i as int))),
        decreases ids.len() - i,
    {
        let ghost before = crate::submit::views(ids@.take(i as int));
        let ghost after = crate::submit::views(ids@.take(i + 1));
        assert(after.drop_last() =~= before);
        assert(after.last() == ids@[i as int]@);
        let t = trim_str(ids[i].as_str());
        if !t.as_str().is_empty() {
            let tv = chars_of(t.as_str());
            if !crate::submit::contains_text(&out, &tv) {
                out.push(t);
                assert(crate::submit::views(out@) =~= unique_ids_spec(before).push(tv@));
            }
        }
        i += 1;
    }
    assert(ids@.take(ids.len() as int) =~= ids@);
    out
}

// ----- account edits -----

/// The first missing field of an account edit, if any, in the order
/// input, name, uid.
pub open spec fn missing_account_field(input: Seq<char>, name: Seq<char>, uid: Seq<char>) -> Option<Seq<char>> {
    if trim_spec(input).len() == 0 {
        Some("accountInput is required"@)
    } else if trim_spec(name).len() == 0 {
        Some("accountName is required"@)
    } else if trim_spec(uid).len() == 0 {
        Some("accountUid is required"@)
    } else {
        None
    }
}

fn is_blank(s: &str) -> (r: bool)
    ensures
        r == (trim_spec(s@).len() == 0),
{
    trim_str(s).as_str().is_empty()
}

/// Checks a new account: supported platform, then non-blank input, name and uid.
pub fn validate_account_create(payload: &RecordingAccountCreatePayload) -> (r: Result<(), AppError>)
    ensures
        r is Ok <==> is_supported_platform(payload.platform@) && missing_account_field(
            payload.account_input@,
            payload.account_name@,
            payload.account_uid@,
        ) is None,
        r matches Err(e) ==> e@ == if !is_supported_platform(payload.platform@) {
            validation_error(platform_error_message())
        } else {
            validation_error(missing_account_field(payload.account_input@, payload.account_name@, payload.account_uid@).unwrap())
        },
{
    validate_recording_platform(payload.platform.as_str())?;
    if is_blank(payload.account_input.as_str()) {
        return Err(validation("accountInput is required"));
    }
    if is_blank(payload.account_name.as_str()) {
        return Err(validation("accountName is required"));
    }
    if is_blank(payload.account_uid.as_str()) {
        return Err(validation("accountUid is required"));
    }
    Ok(())
}

/// Checks an account change: supported platform, non-blank account id, then
/// non-blank input, name and uid.
pub fn validate_account_update(payload: &RecordingAccountUpdatePayload) -> (r: Result<(), AppError>)
    ensures
        r is Ok <==> is_supported_platform(payload.platform@) && trim_spec(payload.account_id@).len() > 0
            && missing_account_field(payload.account_input@, payload.account_name@, payload.account_uid@) is None,
        r matches Err(e) ==> e@ == if !is_supported_platform(payload.platform@) {
            validation_error(platform_error_message())
        } else if trim_spec(payload.account_id@).len() == 0 {
            validation_error("accountId is required"@)
        } else {
            validation_error(missing_account_field(payload.account_input@, payload.account_name@, payload.account_uid@).unwrap())
        },
{
    validate_recording_platform(payload.platform.as_str())?;
    if is_blank(payload.account_id.as_str()) {
        return Err(validation("accountId is required"));
    }
    if is_blank(payload.account_input.as_str()) {
        return Err(validation("accountInput is required"));
    }
    if is_blank(payload.account_name.as_str()) {
        return Err(validation("accountName is required"));
    }
    if is_blank(payload.account_uid.as_str()) {
        return Err(validation("accountUid is required"));
    }
    Ok(())
}

/// Checks a profile-resolution request: supported platform, then a non-blank
/// link that starts with `http://` or `https://` (case-sensitive, after
/// trimming). Gives the trimmed platform and link.
pub fn validate_profile_request(platform: &str, source_url: &str) -> (r: Result<(String, String), AppError>)
    ensures
        r is Ok <==> is_supported_platform(platform@) && trim_spec(source_url@).len() > 0
            && (crate::text::starts_with_spec(trim_spec(source_url@), "http://"@)
            || crate::text::starts_with_spec(trim_spec(source_url@), "https://"@)),
        r matches Ok((p, u)) ==> p@ == trim_spec(platform@) && u@ == trim_spec(source_url@),
        r matches Err(e) ==> e@ == if !is_supported_platform(platform@) {
            validation_error(platform_error_message())
        } else if trim_spec(source_url@).len() == 0 {
            validation_error("sourceUrl is required"@)
        } else {
            validation_error("sourceUrl must be an http or https url"@)
        },
{
    let p = trim_str(platform);
    let u = trim_str(source_url);
    if !(str_eq(p.as_str(), "douyin") || str_eq(p.as_str(), "tiktok")) {
        return Err(validation("platform must be one of douyin/tiktok"));
    }
    if u.as_str().is_empty() {
        return Err(validation("sourceUrl is required"));
    }
    let uv = chars_of(u.as_str());
    if !crate::text::chars_start_with(&uv, "http://") && !crate::text::chars_start_with(&uv, "https://") {
        return Err(validation("sourceUrl must be an http or https url"));
    }
    Ok((p, u))
}


/// An error is logged whenever it is news: when the account did not show an
/// error, or showed a different one (a changed error message is logged even
/// though the status stays `error`); the very same error is not logged again.
pub proof fn law_changed_error_is_logged(status: Seq<char>, last_error: Option<Seq<char>>, error: Option<Seq<char>>)
    ensures
        last_error != error ==> should_log_spec(status, last_error, "error"@, error),
        status != "error"@ ==> should_log_spec(status, last_error, "error"@, error),
        status == "error"@ && last_error == error ==> !should_log_spec(status, last_error, "error"@, error),
{
}

/// A check that reports an error different from the one the account shows
/// plans a log line, whatever the account's status.
pub proof fn law_changed_error_check_plans_a_log(account: RecordingAccountItem, result: RecordingLiveStatusResult, plan: AccountCheckPlan)
    requires
        checked_update_matches(plan, account, result),
        account_status_spec(result.status@) == "error"@,
        opt_view(account.last_error) != opt_view(result.error_message),
    ensures
        plan.log is Some,
{
}

} // verus!
