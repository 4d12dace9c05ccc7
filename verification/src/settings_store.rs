//! Settings against the store: reading them, changing them, recording cookie
//! checks and update checks.

use vstd::prelude::*;
use crate::database::{Db, first_value, meta_set_at};
use crate::error::{AppError, ErrorKind};
use crate::external::now_rfc3339;
use crate::models::{AppSettings, AppSettingsPatch, TokenValidationResult, UpdateCheckResult};
use crate::settings::{
    SettingKey, MetaWrite, all_setting_keys, all_keys_spec, setting_key_text, settings_from_meta, settings_spec, entry_lookup,
    entries_view, settings_update_plan, settings_update_spec, persist_token_validation_writes,
    cookie_platform_of, PlanView, text_step, concurrency_step, switch_step, cookie_step,
    CookiePlatform, token_validation_writes_spec, SettingsView, PatchView,
};
use crate::statements::{StoreOp, SqlArg, text_arg, reply, SQL_GET_META, SQL_SET_META, lemma_prefix_index};

verus! {

/// At position `k` of `ops` setting `key` is asked for and read.
pub open spec fn meta_read_at(ops: Seq<StoreOp>, k: int, key: SettingKey) -> bool {
    &&& 0 <= k < ops.len()
    &&& ops[k] == StoreOp::Query(SQL_GET_META@, seq![text_arg(setting_key_text(key))], Some(reply(ops[k])))
}

/// The values that the reads of `keys`, from position `n` of `ops` on, gave,
/// in key order; unset settings are left out.
pub open spec fn meta_entries(ops: Seq<StoreOp>, n: int, keys: Seq<SettingKey>) -> Seq<(SettingKey, Seq<char>)>
    decreases keys.len(),
{
    if keys.len() == 0 {
        seq![]
    } else {
        let prev = meta_entries(ops, n, keys.drop_last());
        match first_value(reply(ops[n + keys.len() - 1])) {
            Some(v) => prev.push((keys.last(), v)),
            None => prev,
        }
    }
}

/// `after` is `before` with every setting read, one query each, in key
/// order.
pub open spec fn settings_read(before: Seq<StoreOp>, after: Seq<StoreOp>) -> bool {
    let n = before.len() as int;
    let keys = all_keys_spec();
    &&& after.len() == n + keys.len()
    &&& forall|j: int| 0 <= j < keys.len() ==> #[trigger] meta_read_at(after, n + j, keys[j])
}

/// The stored values that the reads after `before` gave.
pub open spec fn read_entries(before: Seq<StoreOp>, after: Seq<StoreOp>) -> Seq<(SettingKey, Seq<char>)> {
    meta_entries(after, before.len() as int, all_keys_spec())
}

proof fn lemma_meta_entries_stable(a: Seq<StoreOp>, b: Seq<StoreOp>, n: int, keys: Seq<SettingKey>)
    requires
        a.is_prefix_of(b),
        0 <= n,
        n + keys.len() <= a.len(),
    ensures
        meta_entries(a, n, keys) == meta_entries(b, n, keys),
    decreases keys.len(),
{
    if keys.len() > 0 {
        lemma_meta_entries_stable(a, b, n, keys.drop_last());
        lemma_prefix_index(a, b, n + keys.len() - 1);
    }
}

/// Reads every stored setting, one key after another in key order.
pub fn read_settings_meta(db: &mut Db) -> (r: Result<Vec<MetaWrite>, AppError>)
    ensures
        final(db).path_view() == old(db).path_view(),
        old(db).ops().is_prefix_of(final(db).ops()),
        r matches Ok(meta) ==> settings_read(old(db).ops(), final(db).ops())
            && entries_view(meta@) == read_entries(old(db).ops(), final(db).ops()),
        r matches Err(e) ==> e@.0 == ErrorKind::Database,
{
    let keys = all_setting_keys();
    let ghost n = db.ops().len() as int;
    let mut meta: Vec<MetaWrite> = Vec::new();
    let mut i: usize = 0;
    assert(keys@.take(0) =~= Seq::<SettingKey>::empty());
    assert(entries_view(meta@) =~= Seq::<(SettingKey, Seq<char>)>::empty());
    while i < keys.len()
        invariant
            i <= keys@.len(),
            keys@ == all_keys_spec(),
            n == old(db).ops().len(),
            db.path_view() == old(db).path_view(),
            old(db).ops().is_prefix_of(db.ops()),
            db.ops().len() == n + i,
            forall|j: int| 0 <= j < i ==> #[trigger] meta_read_at(db.ops(), n + j, keys@[j]),
            entries_view(meta@) == meta_entries(db.ops(), n, keys@.take(i as int)),
        decreases keys.len() - i,
    {
        let key = keys[i];
        let ghost before = db.ops();
        let ghost before_meta = meta@;
        let got = db.get_meta(key.as_str());
        proof {
            if got is Ok {
                lemma_meta_entries_stable(before, db.ops(), n, keys@.take(i as int));
                assert(keys@.take(i + 1).drop_last() =~= keys@.take(i as int));
                assert forall|j: int| 0 <= j < i + 1 implies #[trigger] meta_read_at(db.ops(), n + j, keys@[j]) by {
                    if j < i {
                        assert(meta_read_at(before, n + j, keys@[j]));
                    }
                }
            }
        }
        match got {
            Ok(Some(value)) => {
                meta.push(MetaWrite { key, value });
                assert(entries_view(meta@) =~= entries_view(before_meta).push((key, value@)));
            },
            Ok(None) => {},
            Err(e) => return Err(e),
        }
        i += 1;
    }
    assert(keys@.take(20) =~= keys@);
    Ok(meta)
}

/// The settings that the stored values `m` give (the last entry of a key wins).
pub open spec fn settings_of_entries(m: Seq<(SettingKey, Seq<char>)>, default_dir: Seq<char>) -> SettingsView {
    settings_spec(|k: SettingKey| entry_lookup(m, k), default_dir)
}

/// `after` is `before` with every setting read, and `s` the settings those
/// values give, with `default_dir` as the export directory when none is
/// stored.
pub open spec fn settings_loaded(before: Seq<StoreOp>, after: Seq<StoreOp>, s: SettingsView, default_dir: Seq<char>) -> bool {
    &&& settings_read(before, after)
    &&& s == settings_of_entries(read_entries(before, after), default_dir)
}

/// The settings, with defaults for what is not stored; `default_export_dir`
/// is the export directory when none is stored.
pub fn load_settings(db: &mut Db, default_export_dir: &str) -> (r: Result<AppSettings, AppError>)
    ensures
        final(db).path_view() == old(db).path_view(),
        old(db).ops().is_prefix_of(final(db).ops()),
        r matches Ok(s) ==> settings_loaded(old(db).ops(), final(db).ops(), s@, default_export_dir@),
        r matches Err(e) ==> e@.0 == ErrorKind::Database,
{
    let meta = read_settings_meta(db)?;
    let s = settings_from_meta(&meta, default_export_dir);
    assert(s@ == settings_of_entries(entries_view(meta@), default_export_dir@));
    Ok(s)
}

/// From position `n` of `ops` on, the settings `writes` are stored, one
/// after another, in order.
pub open spec fn meta_written(ops: Seq<StoreOp>, n: int, writes: Seq<(SettingKey, Seq<char>)>) -> bool {
    &&& n + writes.len() <= ops.len()
    &&& forall|j: int| 0 <= j < writes.len() ==> #[trigger] meta_set_at(ops, n + j, setting_key_text(writes[j].0), writes[j].1)
}

/// `after` is `before` with change `p`, made at time `now`, stored: the
/// writes of its plan, in order, then every setting read back into `s`.
pub open spec fn settings_change_stored(before: Seq<StoreOp>, after: Seq<StoreOp>, p: PatchView, now: Seq<char>, s: SettingsView, default_dir: Seq<char>) -> bool {
    let plan = settings_update_spec(p, now);
    &&& plan.1 is None
    &&& meta_written(after, before.len() as int, plan.0)
    &&& settings_loaded(after.take(before.len() as int + plan.0.len()), after, s, default_dir)
}

/// `after` is `before` with the writes of change `p`, made at time `now`,
/// stored up to the field that fails, whose error is `e`; nothing else.
pub open spec fn settings_change_refused(before: Seq<StoreOp>, after: Seq<StoreOp>, p: PatchView, now: Seq<char>, e: (ErrorKind, Seq<char>)) -> bool {
    let plan = settings_update_spec(p, now);
    &&& plan.1 == Some(e)
    &&& after.len() == before.len() + plan.0.len()
    &&& meta_written(after, before.len() as int, plan.0)
}

proof fn lemma_update_error_ignores_time(p: crate::settings::PatchView, a: Seq<char>, b: Seq<char>)
    ensures
        settings_update_spec(p, a).1 == settings_update_spec(p, b).1,
{
    let s0: PlanView = (seq![], None);
    let s1 = text_step(s0, p.theme_mode, SettingKey::ThemeMode);
    let s2 = text_step(s1, p.liquid_glass_style, SettingKey::LiquidGlassStyle);
    let s3 = text_step(s2, p.accent_color, SettingKey::AccentColor);
    let s4 = text_step(s3, p.locale, SettingKey::Locale);
    let s5 = text_step(s4, p.export_dir, SettingKey::ExportDir);
    let s6 = concurrency_step(s5, p.max_concurrent_downloads);
    let s7 = switch_step(s6, p.download_notifications_enabled, SettingKey::DownloadNotificationsEnabled);
    let a8 = cookie_step(s7, p.douyin_cookie, CookiePlatform::Douyin, a);
    let b8 = cookie_step(s7, p.douyin_cookie, CookiePlatform::Douyin, b);
    assert(a8.1 == b8.1);
    let a9 = cookie_step(a8, p.tiktok_cookie, CookiePlatform::Tiktok, a);
    let b9 = cookie_step(b8, p.tiktok_cookie, CookiePlatform::Tiktok, b);
    assert(a9.1 == b9.1);
}

/// Whether a settings change passes validation (whatever time it is made).
pub open spec fn settings_patch_valid(p: crate::settings::PatchView) -> bool {
    settings_update_spec(p, seq![]).1 is None
}

/// Applies a settings change and reads the settings back. The writes of
/// `settings_update_spec` are made in order; a field that fails validation
/// stops the change with its error (the writes before it stay made).
pub fn settings_update(db: &mut Db, patch: &AppSettingsPatch, default_export_dir: &str) -> (r: Result<AppSettings, AppError>)
    ensures
        final(db).path_view() == old(db).path_view(),
        old(db).ops().is_prefix_of(final(db).ops()),
        !settings_patch_valid(patch@) ==> r is Err,
        r matches Err(e) ==> e@.0 == ErrorKind::Database || Some(e@) == settings_update_spec(patch@, seq![]).1,
        r matches Ok(s) ==> exists|now: Seq<char>| #[trigger] settings_change_stored(old(db).ops(), final(db).ops(), patch@, now, s@, default_export_dir@),
        r matches Err(e) ==> (e@.0 != ErrorKind::Database ==> exists|now: Seq<char>| #[trigger] settings_change_refused(old(db).ops(), final(db).ops(), patch@, now, e@)),
{
    let now = now_rfc3339();
    let plan = settings_update_plan(patch, now.as_str());
    let ghost n = db.ops().len() as int;
    let ghost w = entries_view(plan.writes@);
    proof {
        lemma_update_error_ignores_time(patch@, now@, seq![]);
    }
    let mut i: usize = 0;
    while i < plan.writes.len()
        invariant
            i <= plan.writes@.len(),
            w == entries_view(plan.writes@),
            n == old(db).ops().len(),
            db.path_view() == old(db).path_view(),
            old(db).ops().is_prefix_of(db.ops()),
            db.ops().len() == n + i,
            forall|j: int| 0 <= j < i ==> #[trigger] meta_set_at(db.ops(), n + j, setting_key_text(w[j].0), w[j].1),
        decreases plan.writes.len() - i,
    {
        let wr = &plan.writes[i];
        let ghost before = db.ops();
        db.set_meta(wr.key.as_str(), wr.value.as_str())?;
        proof {
            assert(w[i as int] == plan.writes@[i as int]@);
            assert forall|j: int| 0 <= j < i + 1 implies #[trigger] meta_set_at(db.ops(), n + j, setting_key_text(w[j].0), w[j].1) by {
                if j < i {
                    assert(meta_set_at(before, n + j, setting_key_text(w[j].0), w[j].1));
                }
            }
        }
        i += 1;
    }
    let ghost written = db.ops();
    if let Some(e) = plan.error {
        proof {
            assert(settings_change_refused(old(db).ops(), db.ops(), patch@, now@, e@));
        }
        return Err(e);
    }
    let r = load_settings(db, default_export_dir);
    proof {
        if r is Ok {
            let s = r->Ok_0;
            assert(written.len() == n + w.len());
            assert(db.ops().take(n + w.len()) =~= written) by {
                assert forall|j: int| 0 <= j < written.len() implies db.ops()[j] == written[j] by {
                    lemma_prefix_index(written, db.ops(), j);
                }
            }
            assert forall|j: int| 0 <= j < w.len() implies #[trigger] meta_set_at(db.ops(), n + j, setting_key_text(w[j].0), w[j].1) by {
                assert(meta_set_at(written, n + j, setting_key_text(w[j].0), w[j].1));
                lemma_prefix_index(written, db.ops(), n + j);
            }
            assert(settings_change_stored(old(db).ops(), db.ops(), patch@, now@, s@, default_export_dir@));
        }
    }
    r
}

/// Records the outcome of a cookie check under its platform's keys.
pub fn persist_token_validation(db: &mut Db, result: &TokenValidationResult) -> (r: Result<(), AppError>)
    ensures
        cookie_platform_of(result.platform@) is None ==> (r matches Err(e) && e@ == crate::error::validation_error("platform must be one of douyin/tiktok"@)),
        cookie_platform_of(result.platform@) is Some ==> (r matches Err(e) ==> e@.0 == ErrorKind::Database),
        final(db).path_view() == old(db).path_view(),
        old(db).ops().is_prefix_of(final(db).ops()),
        cookie_platform_of(result.platform@) is None ==> final(db).ops() == old(db).ops(),
        r is Ok ==> final(db).ops().len() == old(db).ops().len() + 3
            && meta_written(final(db).ops(), old(db).ops().len() as int, token_validation_writes_spec(
                cookie_platform_of(result.platform@).unwrap(), result.checked_at@, result.status@, result.message@)),
{
    let writes = persist_token_validation_writes(result)?;
    let ghost n = db.ops().len() as int;
    let ghost w = entries_view(writes@);
    let mut i: usize = 0;
    while i < writes.len()
        invariant
            i <= writes@.len(),
            cookie_platform_of(result.platform@) is Some,
            w == entries_view(writes@),
            w == token_validation_writes_spec(cookie_platform_of(result.platform@).unwrap(), result.checked_at@, result.status@, result.message@),
            n == old(db).ops().len(),
            db.path_view() == old(db).path_view(),
            old(db).ops().is_prefix_of(db.ops()),
            db.ops().len() == n + i,
            forall|j: int| 0 <= j < i ==> #[trigger] meta_set_at(db.ops(), n + j, setting_key_text(w[j].0), w[j].1),
        decreases writes.len() - i,
    {
        let ghost before = db.ops();
        db.set_meta(writes[i].key.as_str(), writes[i].value.as_str())?;
        proof {
            assert(w[i as int] == writes@[i as int]@);
            assert forall|j: int| 0 <= j < i + 1 implies #[trigger] meta_set_at(db.ops(), n + j, setting_key_text(w[j].0), w[j].1) by {
                if j < i {
                    assert(meta_set_at(before, n + j, setting_key_text(w[j].0), w[j].1));
                }
            }
        }
        i += 1;
    }
    assert(w.len() == writes@.len());
    assert(meta_written(db.ops(), n, w));
    Ok(())
}

/// Records an update check; the running version is the latest.
pub fn settings_check_update(db: &mut Db, current_version: &str) -> (r: Result<UpdateCheckResult, AppError>)
    ensures
        r matches Ok(u) ==> u.status@ == "up-to-date"@ && u.message@ == "当前已是最新版本"@
            && u.current_version@ == current_version@ && u.latest_version@ == current_version@,
        r matches Err(e) ==> e@.0 == ErrorKind::Database,
        final(db).path_view() == old(db).path_view(),
        old(db).ops().is_prefix_of(final(db).ops()),
        r matches Ok(u) ==> final(db).ops().len() == old(db).ops().len() + 2
            && meta_set_at(final(db).ops(), old(db).ops().len() as int, setting_key_text(SettingKey::LastUpdateCheckAt), u.checked_at@)
            && meta_set_at(final(db).ops(), old(db).ops().len() as int + 1, setting_key_text(SettingKey::LastUpdateStatus), "up-to-date"@),
{
    let checked_at = now_rfc3339();
    db.set_meta(SettingKey::LastUpdateCheckAt.as_str(), checked_at.as_str())?;
    db.set_meta(SettingKey::LastUpdateStatus.as_str(), "up-to-date")?;
    Ok(UpdateCheckResult {
        checked_at,
        status: "up-to-date".to_owned(),
        message: "当前已是最新版本".to_owned(),
        current_version: current_version.to_owned(),
        latest_version: current_version.to_owned(),
    })
}

/// The settings as this store's own writes leave them: for each key text,
/// the value of its last write among `ops` (statements other than setting
/// writes leave them as they are).
pub open spec fn written_meta(ops: Seq<StoreOp>) -> Map<Seq<char>, Seq<char>>
    decreases ops.len(),
{
    if ops.len() == 0 {
        Map::empty()
    } else {
        let prev = written_meta(ops.drop_last());
        match ops.last() {
            StoreOp::Execute(sql, args) => if sql == SQL_SET_META@ && args.len() == 3 && args[0] is Text && args[1] is Text {
                prev.insert(args[0]->Text_0, args[1]->Text_0)
            } else {
                prev
            },
            _ => prev,
        }
    }
}

/// `m` with the writes `w` applied in order.
pub open spec fn apply_writes(m: Map<Seq<char>, Seq<char>>, w: Seq<(SettingKey, Seq<char>)>) -> Map<Seq<char>, Seq<char>>
    decreases w.len(),
{
    if w.len() == 0 {
        m
    } else {
        apply_writes(m, w.drop_last()).insert(setting_key_text(w.last().0), w.last().1)
    }
}

/// Storing a setting leaves it at the value stored, whatever was written
/// before; the other settings keep their values.
pub proof fn law_latest_setting_write_wins(ops: Seq<StoreOp>, key: Seq<char>, value: Seq<char>, at: Seq<char>)
    ensures
        written_meta(ops.push(StoreOp::Execute(SQL_SET_META@, seq![text_arg(key), text_arg(value), text_arg(at)]))) == written_meta(ops).insert(key, value),
{
    let op = StoreOp::Execute(SQL_SET_META@, seq![text_arg(key), text_arg(value), text_arg(at)]);
    assert(ops.push(op).drop_last() =~= ops);
}

proof fn lemma_queries_keep_written(before: Seq<StoreOp>, after: Seq<StoreOp>)
    requires
        before.is_prefix_of(after),
        forall|i: int| before.len() <= i < after.len() ==> (#[trigger] after[i]) is Query,
    ensures
        written_meta(after) == written_meta(before),
    decreases after.len(),
{
    if after.len() > before.len() {
        assert(before.is_prefix_of(after.drop_last())) by {
            assert(before =~= after.drop_last().subrange(0, before.len() as int));
        }
        lemma_queries_keep_written(before, after.drop_last());
    } else {
        assert(after =~= before);
    }
}

proof fn lemma_writes_apply(ops: Seq<StoreOp>, n: int, w: Seq<(SettingKey, Seq<char>)>)
    requires
        0 <= n,
        meta_written(ops, n, w),
    ensures
        written_meta(ops.take(n + w.len())) == apply_writes(written_meta(ops.take(n)), w),
    decreases w.len(),
{
    if w.len() > 0 {
        let w0 = w.drop_last();
        assert(meta_written(ops, n, w0)) by {
            assert forall|j: int| 0 <= j < w0.len() implies #[trigger] meta_set_at(ops, n + j, setting_key_text(w0[j].0), w0[j].1) by {
                assert(meta_set_at(ops, n + j, setting_key_text(w[j].0), w[j].1));
            }
        }
        lemma_writes_apply(ops, n, w0);
        let k = n + w.len() - 1;
        assert(meta_set_at(ops, k, setting_key_text(w[w.len() - 1].0), w[w.len() - 1].1));
        assert(ops.take(k + 1).drop_last() =~= ops.take(k));
        assert(ops.take(k + 1).last() == ops[k]);
    }
}

/// A settings change that succeeds leaves this store's writes as they were
/// with the writes of its plan applied in order, and only those; the reads
/// that follow them change nothing.
pub proof fn law_settings_change_applies_its_plan(before: Seq<StoreOp>, after: Seq<StoreOp>, p: PatchView, now: Seq<char>, s: SettingsView, default_dir: Seq<char>)
    requires
        before.is_prefix_of(after),
        settings_change_stored(before, after, p, now, s, default_dir),
    ensures
        written_meta(after) == apply_writes(written_meta(before), settings_update_spec(p, now).0),
{
    let w = settings_update_spec(p, now).0;
    let n = before.len() as int;
    lemma_writes_apply(after, n, w);
    assert(after.take(n) =~= before);
    let mid = after.take(n + w.len());
    assert(mid.is_prefix_of(after)) by {
        assert(mid =~= after.subrange(0, mid.len() as int));
    }
    assert forall|i: int| mid.len() <= i < after.len() implies (#[trigger] after[i]) is Query by {
        let j = i - mid.len();
        assert(meta_read_at(after, mid.len() + j, all_keys_spec()[j]));
    }
    lemma_queries_keep_written(mid, after);
}

/// A settings change refused at a field leaves this store's writes as they
/// were with the writes planned before that field applied in order.
pub proof fn law_refused_change_keeps_earlier_writes(before: Seq<StoreOp>, after: Seq<StoreOp>, p: PatchView, now: Seq<char>, e: (ErrorKind, Seq<char>))
    requires
        before.is_prefix_of(after),
        settings_change_refused(before, after, p, now, e),
    ensures
        written_meta(after) == apply_writes(written_meta(before), settings_update_spec(p, now).0),
{
    let w = settings_update_spec(p, now).0;
    let n = before.len() as int;
    lemma_writes_apply(after, n, w);
    assert(after.take(n) =~= before);
    assert(after.take(n + w.len()) =~= after);
}

/// Recording a cookie check leaves this store's writes as they were with the
/// check's time, status and message written under its platform's keys, in
/// that order.
pub proof fn law_cookie_check_applies_its_writes(before: Seq<StoreOp>, after: Seq<StoreOp>, platform: CookiePlatform, checked_at: Seq<char>, status: Seq<char>, message: Seq<char>)
    requires
        before.is_prefix_of(after),
        after.len() == before.len() + 3,
        meta_written(after, before.len() as int, token_validation_writes_spec(platform, checked_at, status, message)),
    ensures
        written_meta(after) == apply_writes(written_meta(before), token_validation_writes_spec(platform, checked_at, status, message)),
{
    let w = token_validation_writes_spec(platform, checked_at, status, message);
    let n = before.len() as int;
    lemma_writes_apply(after, n, w);
    assert(after.take(n) =~= before);
    assert(after.take(n + w.len()) =~= after);
}

/// The value of the last of the writes `w` to the key with text `key`, if any.
pub open spec fn last_write(w: Seq<(SettingKey, Seq<char>)>, key: Seq<char>) -> Option<Seq<char>>
    decreases w.len(),
{
    if w.len() == 0 {
        None
    } else if setting_key_text(w.last().0) == key {
        Some(w.last().1)
    } else {
        last_write(w.drop_last(), key)
    }
}

proof fn lemma_apply_writes_at(m: Map<Seq<char>, Seq<char>>, w: Seq<(SettingKey, Seq<char>)>, key: Seq<char>)
    ensures
        match last_write(w, key) {
            Some(v) => apply_writes(m, w).contains_key(key) && apply_writes(m, w)[key] == v,
            None => apply_writes(m, w).contains_key(key) == m.contains_key(key)
                && (m.contains_key(key) ==> apply_writes(m, w)[key] == m[key]),
        },
    decreases w.len(),
{
    if w.len() > 0 {
        lemma_apply_writes_at(m, w.drop_last(), key);
    }
}

/// Applying the same writes twice leaves the settings as applying them once:
/// a change made again, with the same plan, changes nothing more.
pub proof fn law_writes_are_idempotent(m: Map<Seq<char>, Seq<char>>, w: Seq<(SettingKey, Seq<char>)>)
    ensures
        apply_writes(apply_writes(m, w), w) == apply_writes(m, w),
{
    let once = apply_writes(m, w);
    let twice = apply_writes(once, w);
    assert forall|k: Seq<char>| #[trigger] twice.contains_key(k) == once.contains_key(k) by {
        lemma_apply_writes_at(m, w, k);
        lemma_apply_writes_at(once, w, k);
    }
    assert forall|k: Seq<char>| twice.contains_key(k) implies #[trigger] twice[k] == once[k] by {
        lemma_apply_writes_at(m, w, k);
        lemma_apply_writes_at(once, w, k);
    }
    assert(twice =~= once);
}

/// After writes `w`, each key written holds the value of its last write.
pub proof fn law_last_planned_write_stands(m: Map<Seq<char>, Seq<char>>, w: Seq<(SettingKey, Seq<char>)>, key: Seq<char>)
    requires
        last_write(w, key) is Some,
    ensures
        apply_writes(m, w).contains_key(key),
        apply_writes(m, w)[key] == last_write(w, key).unwrap(),
{
    lemma_apply_writes_at(m, w, key);
}

} // verus!
