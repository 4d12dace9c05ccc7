//! User settings: validation of each setting, how stored values are read
//! back into `AppSettings` (with defaults), and which stored values a
//! settings change writes.

use vstd::prelude::*;
use crate::text::{
    opt_view, string_from_chars, chars_of, trim_chars, trim_str, trim_spec, str_eq, ascii_lower_chars,
    ascii_lower_seq, lemma_trim_idempotent, lemma_trim_fixed,
};
use crate::number::{
    decimal_string, decimal_spec, parse_bounded, parse_bounded_spec, law_decimal_round_trip,
};
use crate::cookie::{normalize_cookie_text, normalize_cookie_spec, law_normalize_cookie_idempotent};
use crate::error::{AppError, ErrorKind, validation, validation_error};
use crate::models::{AppSettings, AppSettingsPatch, TokenValidationResult};

verus! {

/// The stored settings, one key each.
#[derive(Clone, Copy, PartialEq, Eq, Structural, Debug)]
pub enum SettingKey {
    ThemeMode,
    LiquidGlassStyle,
    AccentColor,
    Locale,
    ExportDir,
    MaxConcurrentDownloads,
    DownloadNotificationsEnabled,
    DouyinCookie,
    DouyinCookieUpdatedAt,
    DouyinLastCheckedAt,
    DouyinLastCheckStatus,
    DouyinLastCheckMessage,
    TiktokCookie,
    TiktokCookieUpdatedAt,
    TiktokLastCheckedAt,
    TiktokLastCheckStatus,
    TiktokLastCheckMessage,
    AutoCheckUpdates,
    LastUpdateCheckAt,
    LastUpdateStatus,
}

/// The name under which a setting is stored.
pub open spec fn setting_key_text(k: SettingKey) -> Seq<char> {
    match k {
        SettingKey::ThemeMode => "settings.theme_mode"@,
        SettingKey::LiquidGlassStyle => "settings.liquid_glass_style"@,
        SettingKey::AccentColor => "settings.accent_color"@,
        SettingKey::Locale => "settings.locale"@,
        SettingKey::ExportDir => "settings.export_dir"@,
        SettingKey::MaxConcurrentDownloads => "settings.max_concurrent_downloads"@,
        SettingKey::DownloadNotificationsEnabled => "settings.download_notifications_enabled"@,
        SettingKey::DouyinCookie => "settings.douyin_cookie"@,
        SettingKey::DouyinCookieUpdatedAt => "settings.douyin_cookie_updated_at"@,
        SettingKey::DouyinLastCheckedAt => "settings.douyin_last_checked_at"@,
        SettingKey::DouyinLastCheckStatus => "settings.douyin_last_check_status"@,
        SettingKey::DouyinLastCheckMessage => "settings.douyin_last_check_message"@,
        SettingKey::TiktokCookie => "settings.tiktok_cookie"@,
        SettingKey::TiktokCookieUpdatedAt => "settings.tiktok_cookie_updated_at"@,
        SettingKey::TiktokLastCheckedAt => "settings.tiktok_last_checked_at"@,
        SettingKey::TiktokLastCheckStatus => "settings.tiktok_last_check_status"@,
        SettingKey::TiktokLastCheckMessage => "settings.tiktok_last_check_message"@,
        SettingKey::AutoCheckUpdates => "settings.auto_check_updates"@,
        SettingKey::LastUpdateCheckAt => "settings.last_update_check_at"@,
        SettingKey::LastUpdateStatus => "settings.last_update_status"@,
    }
}

impl SettingKey {
    /// The name under which this setting is stored.
    pub fn as_str(&self) -> (s: &'static str)
        ensures
            s@ == setting_key_text(*self),
    {
        match self {
            SettingKey::ThemeMode => "settings.theme_mode",
            SettingKey::LiquidGlassStyle => "settings.liquid_glass_style",
            SettingKey::AccentColor => "settings.accent_color",
            SettingKey::Locale => "settings.locale",
            SettingKey::ExportDir => "settings.export_dir",
            SettingKey::MaxConcurrentDownloads => "settings.max_concurrent_downloads",
            SettingKey::DownloadNotificationsEnabled => "settings.download_notifications_enabled",
            SettingKey::DouyinCookie => "settings.douyin_cookie",
            SettingKey::DouyinCookieUpdatedAt => "settings.douyin_cookie_updated_at",
            SettingKey::DouyinLastCheckedAt => "settings.douyin_last_checked_at",
            SettingKey::DouyinLastCheckStatus => "settings.douyin_last_check_status",
            SettingKey::DouyinLastCheckMessage => "settings.douyin_last_check_message",
            SettingKey::TiktokCookie => "settings.tiktok_cookie",
            SettingKey::TiktokCookieUpdatedAt => "settings.tiktok_cookie_updated_at",
            SettingKey::TiktokLastCheckedAt => "settings.tiktok_last_checked_at",
            SettingKey::TiktokLastCheckStatus => "settings.tiktok_last_check_status",
            SettingKey::TiktokLastCheckMessage => "settings.tiktok_last_check_message",
            SettingKey::AutoCheckUpdates => "settings.auto_check_updates",
            SettingKey::LastUpdateCheckAt => "settings.last_update_check_at",
            SettingKey::LastUpdateStatus => "settings.last_update_status",
        }
    }
}

/// Every setting key, in the order the settings are read.
pub open spec fn all_keys_spec() -> Seq<SettingKey> {
    seq![
        SettingKey::ThemeMode,
        SettingKey::LiquidGlassStyle,
        SettingKey::AccentColor,
        SettingKey::Locale,
        SettingKey::ExportDir,
        SettingKey::MaxConcurrentDownloads,
        SettingKey::DownloadNotificationsEnabled,
        SettingKey::DouyinCookie,
        SettingKey::DouyinCookieUpdatedAt,
        SettingKey::DouyinLastCheckedAt,
        SettingKey::DouyinLastCheckStatus,
        SettingKey::DouyinLastCheckMessage,
        SettingKey::TiktokCookie,
        SettingKey::TiktokCookieUpdatedAt,
        SettingKey::TiktokLastCheckedAt,
        SettingKey::TiktokLastCheckStatus,
        SettingKey::TiktokLastCheckMessage,
        SettingKey::AutoCheckUpdates,
        SettingKey::LastUpdateCheckAt,
        SettingKey::LastUpdateStatus,
    ]
}

/// Every setting key, in the order the settings are read.
pub fn all_setting_keys() -> (v: Vec<SettingKey>)
    ensures
        v@ == all_keys_spec(),
        v@.len() == 20,
        forall|k: SettingKey| v@.contains(k),
{
    let v = vec![
        SettingKey::ThemeMode,
        SettingKey::LiquidGlassStyle,
        SettingKey::AccentColor,
        SettingKey::Locale,
        SettingKey::ExportDir,
        SettingKey::MaxConcurrentDownloads,
        SettingKey::DownloadNotificationsEnabled,
        SettingKey::DouyinCookie,
        SettingKey::DouyinCookieUpdatedAt,
        SettingKey::DouyinLastCheckedAt,
        SettingKey::DouyinLastCheckStatus,
        SettingKey::DouyinLastCheckMessage,
        SettingKey::TiktokCookie,
        SettingKey::TiktokCookieUpdatedAt,
        SettingKey::TiktokLastCheckedAt,
        SettingKey::TiktokLastCheckStatus,
        SettingKey::TiktokLastCheckMessage,
        SettingKey::AutoCheckUpdates,
        SettingKey::LastUpdateCheckAt,
        SettingKey::LastUpdateStatus,
    ];
    assert(v@ =~= all_keys_spec());
    assert forall|k: SettingKey| v@.contains(k) by {
        match k {
            SettingKey::ThemeMode => assert(v@[0] == k),
            SettingKey::LiquidGlassStyle => assert(v@[1] == k),
            SettingKey::AccentColor => assert(v@[2] == k),
            SettingKey::Locale => assert(v@[3] == k),
            SettingKey::ExportDir => assert(v@[4] == k),
            SettingKey::MaxConcurrentDownloads => assert(v@[5] == k),
            SettingKey::DownloadNotificationsEnabled => assert(v@[6] == k),
            SettingKey::DouyinCookie => assert(v@[7] == k),
            SettingKey::DouyinCookieUpdatedAt => assert(v@[8] == k),
            SettingKey::DouyinLastCheckedAt => assert(v@[9] == k),
            SettingKey::DouyinLastCheckStatus => assert(v@[10] == k),
            SettingKey::DouyinLastCheckMessage => assert(v@[11] == k),
            SettingKey::TiktokCookie => assert(v@[12] == k),
            SettingKey::TiktokCookieUpdatedAt => assert(v@[13] == k),
            SettingKey::TiktokLastCheckedAt => assert(v@[14] == k),
            SettingKey::TiktokLastCheckStatus => assert(v@[15] == k),
            SettingKey::TiktokLastCheckMessage => assert(v@[16] == k),
            SettingKey::AutoCheckUpdates => assert(v@[17] == k),
            SettingKey::LastUpdateCheckAt => assert(v@[18] == k),
            SettingKey::LastUpdateStatus => assert(v@[19] == k),
        }
    }
    v
}

/// One stored setting: its key and value.
#[derive(Debug)]
pub struct MetaWrite {
    pub key: SettingKey,
    pub value: String,
}

impl View for MetaWrite {
    type V = (SettingKey, Seq<char>);

    open spec fn view(&self) -> (SettingKey, Seq<char>) {
        (self.key, self.value@)
    }
}

/// The views of a list of stored settings.
pub open spec fn entries_view(v: Seq<MetaWrite>) -> Seq<(SettingKey, Seq<char>)> {
    v.map_values(|w: MetaWrite| w@)
}

/// The value of `k` among `e`: the last entry for `k` wins.
pub open spec fn entry_lookup(e: Seq<(SettingKey, Seq<char>)>, k: SettingKey) -> Option<Seq<char>>
    decreases e.len(),
{
    if e.len() == 0 {
        None
    } else if e.last().0 == k {
        Some(e.last().1)
    } else {
        entry_lookup(e.drop_last(), k)
    }
}

/// The value of `k` in the store `store` after `writes` were applied in order.
pub open spec fn store_after(
    store: spec_fn(SettingKey) -> Option<Seq<char>>,
    writes: Seq<(SettingKey, Seq<char>)>,
    k: SettingKey,
) -> Option<Seq<char>> {
    match entry_lookup(writes, k) {
        Some(v) => Some(v),
        None => store(k),
    }
}

/// The value of `key` among `meta` (the last entry wins).
pub fn lookup_meta(meta: &Vec<MetaWrite>, key: SettingKey) -> (r: Option<String>)
    ensures
        opt_view(r) == entry_lookup(entries_view(meta@), key),
{
    let mut i: usize = meta.len();
    assert(meta@.take(meta.len() as int) =~= meta@);
    while i > 0
        invariant
            i <= meta.len(),
            entry_lookup(entries_view(meta@), key) == entry_lookup(
                entries_view(meta@.take(i as int)),
                key,
            ),
        decreases i,
    {
        let ghost e = entries_view(meta@.take(i as int));
        assert(e.drop_last() =~= entries_view(meta@.take(i - 1)));
        assert(e.last() == meta@[i - 1]@);
        if meta[i - 1].key == key {
            return Some(meta[i - 1].value.clone());
        }
        i -= 1;
    }
    assert(entries_view(meta@.take(0)) =~= Seq::<(SettingKey, Seq<char>)>::empty());
    None
}


// ----- validation of single settings -----

/// The theme is `auto`, `light` or `dark` (after trimming).
pub open spec fn valid_theme_mode(s: Seq<char>) -> bool {
    let t = trim_spec(s);
    t == "auto"@ || t == "light"@ || t == "dark"@
}

/// Accepts the themes `auto`, `light` and `dark`.
pub fn validate_theme_mode(value: &str) -> (r: Result<(), AppError>)
    ensures
        r is Ok <==> valid_theme_mode(value@),
        r matches Err(e) ==> e@ == validation_error("themeMode must be one of auto/light/dark"@),
{
    let t = trim_str(value);
    if str_eq(t.as_str(), "auto") || str_eq(t.as_str(), "light") || str_eq(t.as_str(), "dark") {
        Ok(())
    } else {
        Err(validation("themeMode must be one of auto/light/dark"))
    }
}

/// The glass style is `transparent` or `tinted` (after trimming).
pub open spec fn valid_liquid_glass_style(s: Seq<char>) -> bool {
    let t = trim_spec(s);
    t == "transparent"@ || t == "tinted"@
}

/// Accepts the glass styles `transparent` and `tinted`.
pub fn validate_liquid_glass_style(value: &str) -> (r: Result<(), AppError>)
    ensures
        r is Ok <==> valid_liquid_glass_style(value@),
        r is Ok <==> (trim_spec(value@) == "transparent"@ || trim_spec(value@) == "tinted"@),
        r matches Err(e) ==> e@ == validation_error(
            "liquidGlassStyle must be one of transparent/tinted"@,
        ),
{
    let t = trim_str(value);
    if str_eq(t.as_str(), "transparent") || str_eq(t.as_str(), "tinted") {
        Ok(())
    } else {
        Err(validation("liquidGlassStyle must be one of transparent/tinted"))
    }
}

/// The locale is `zh-CN` or `en-US` (after trimming).
pub open spec fn valid_locale(s: Seq<char>) -> bool {
    let t = trim_spec(s);
    t == "zh-CN"@ || t == "en-US"@
}

/// Accepts the locales `zh-CN` and `en-US`.
pub fn validate_locale(value: &str) -> (r: Result<(), AppError>)
    ensures
        r is Ok <==> valid_locale(value@),
        r matches Err(e) ==> e@ == validation_error("locale must be one of zh-CN/en-US"@),
{
    let t = trim_str(value);
    if str_eq(t.as_str(), "zh-CN") || str_eq(t.as_str(), "en-US") {
        Ok(())
    } else {
        Err(validation("locale must be one of zh-CN/en-US"))
    }
}

/// An ASCII hexadecimal digit.
pub open spec fn is_hex_digit(c: char) -> bool {
    ('0' <= c <= '9') || ('a' <= c <= 'f') || ('A' <= c <= 'F')
}

/// The accent colour is `#` and six hexadecimal digits (after trimming).
pub open spec fn valid_accent_color(s: Seq<char>) -> bool {
    let t = trim_spec(s);
    &&& t.len() == 7
    &&& t[0] == '#'
    &&& forall|i: int| 1 <= i < 7 ==> is_hex_digit(#[trigger] t[i])
}

/// Accepts colours written `#rrggbb`.
pub fn validate_accent_color(value: &str) -> (r: Result<(), AppError>)
    ensures
        r is Ok <==> valid_accent_color(value@),
        r matches Err(e) ==> e@ == validation_error(
            "accentColor must be a hex color like #2f6dff"@,
        ),
{
    let v = chars_of(value);
    let t = trim_chars(&v);
    let mut valid = t.len() == 7 && t[0] == '#';
    if valid {
        let mut i: usize = 1;
        while i < 7
            invariant
                1 <= i <= 7,
                t.len() == 7,
                t@ == trim_spec(value@),
                valid == forall|k: int| 1 <= k < i ==> is_hex_digit(#[trigger] t@[k]),
            decreases 7 - i,
        {
            let c = t[i];
            let hex = ('0' <= c && c <= '9') || ('a' <= c && c <= 'f') || ('A' <= c && c <= 'F');
            valid = valid && hex;
            i += 1;
        }
    }
    if valid {
        Ok(())
    } else {
        Err(validation("accentColor must be a hex color like #2f6dff"))
    }
}

/// Between 1 and 8 downloads may run at once.
pub open spec fn valid_max_concurrent_downloads(v: nat) -> bool {
    1 <= v <= 8
}

/// Accepts a download concurrency from 1 to 8.
pub fn validate_max_concurrent_downloads(value: u32) -> (r: Result<(), AppError>)
    ensures
        r is Ok <==> valid_max_concurrent_downloads(value as nat),
        r matches Err(e) ==> e@ == validation_error(
            "maxConcurrentDownloads must be between 1 and 8"@,
        ),
{
    if 1 <= value && value <= 8 {
        Ok(())
    } else {
        Err(validation("maxConcurrentDownloads must be between 1 and 8"))
    }
}

/// Normalizes a download cookie: trimmed non-empty lines joined by spaces.
pub fn normalize_download_cookie(value: &str) -> (r: String)
    ensures
        r@ == normalize_cookie_spec(value@),
{
    normalize_cookie_text(value)
}

/// `true`, `1`, `yes`, `on` read as true and `false`, `0`, `no`, `off` as
/// false, ignoring case and surrounding white space; anything else is unset.
pub open spec fn parse_bool_spec(s: Seq<char>) -> Option<bool> {
    let l = ascii_lower_seq(trim_spec(s));
    if l == "true"@ || l == "1"@ || l == "yes"@ || l == "on"@ {
        Some(true)
    } else if l == "false"@ || l == "0"@ || l == "no"@ || l == "off"@ {
        Some(false)
    } else {
        None
    }
}

/// Reads a stored switch.
pub fn parse_bool(raw: &str) -> (r: Option<bool>)
    ensures
        r == parse_bool_spec(raw@),
{
    let v = chars_of(raw);
    let t = trim_chars(&v);
    let l = ascii_lower_chars(&t);
    let ls = string_from_chars(&l);
    let s = ls.as_str();
    if str_eq(s, "true") || str_eq(s, "1") || str_eq(s, "yes") || str_eq(s, "on") {
        Some(true)
    } else if str_eq(s, "false") || str_eq(s, "0") || str_eq(s, "no") || str_eq(s, "off") {
        Some(false)
    } else {
        None
    }
}

/// A stored text that counts only when not blank, trimmed.
pub open spec fn optional_trim_spec(v: Option<Seq<char>>) -> Option<Seq<char>> {
    match v {
        Some(x) => if trim_spec(x).len() > 0 {
            Some(trim_spec(x))
        } else {
            None
        },
        None => None,
    }
}

/// Keeps a stored text only when it is not blank, trimmed.
pub fn optional_trim(v: Option<String>) -> (r: Option<String>)
    ensures
        opt_view(r) == optional_trim_spec(opt_view(v)),
{
    match v {
        Some(x) => {
            let t = trim_str(x.as_str());
            if t.as_str().is_empty() {
                None
            } else {
                Some(t)
            }
        },
        None => None,
    }
}

// ----- reading settings back -----

/// The settings as the user interface sees them.
pub struct SettingsView {
    pub theme_mode: Seq<char>,
    pub liquid_glass_style: Seq<char>,
    pub accent_color: Seq<char>,
    pub locale: Seq<char>,
    pub export_dir: Seq<char>,
    pub max_concurrent_downloads: nat,
    pub download_notifications_enabled: bool,
    pub douyin_cookie: Seq<char>,
    pub douyin_cookie_updated_at: Option<Seq<char>>,
    pub douyin_last_checked_at: Option<Seq<char>>,
    pub douyin_last_check_status: Seq<char>,
    pub douyin_last_check_message: Option<Seq<char>>,
    pub tiktok_cookie: Seq<char>,
    pub tiktok_cookie_updated_at: Option<Seq<char>>,
    pub tiktok_last_checked_at: Option<Seq<char>>,
    pub tiktok_last_check_status: Seq<char>,
    pub tiktok_last_check_message: Option<Seq<char>>,
    pub auto_check_updates: bool,
    pub last_update_check_at: Option<Seq<char>>,
    pub last_update_status: Option<Seq<char>>,
}

impl View for AppSettings {
    type V = SettingsView;

    open spec fn view(&self) -> SettingsView {
        SettingsView {
            theme_mode: self.theme_mode@,
            liquid_glass_style: self.liquid_glass_style@,
            accent_color: self.accent_color@,
            locale: self.locale@,
            export_dir: self.export_dir@,
            max_concurrent_downloads: self.max_concurrent_downloads as nat,
            download_notifications_enabled: self.download_notifications_enabled,
            douyin_cookie: self.douyin_cookie@,
            douyin_cookie_updated_at: opt_view(self.douyin_cookie_updated_at),
            douyin_last_checked_at: opt_view(self.douyin_last_checked_at),
            douyin_last_check_status: self.douyin_last_check_status@,
            douyin_last_check_message: opt_view(self.douyin_last_check_message),
            tiktok_cookie: self.tiktok_cookie@,
            tiktok_cookie_updated_at: opt_view(self.tiktok_cookie_updated_at),
            tiktok_last_checked_at: opt_view(self.tiktok_last_checked_at),
            tiktok_last_check_status: self.tiktok_last_check_status@,
            tiktok_last_check_message: opt_view(self.tiktok_last_check_message),
            auto_check_updates: self.auto_check_updates,
            last_update_check_at: opt_view(self.last_update_check_at),
            last_update_status: opt_view(self.last_update_status),
        }
    }
}

/// A stored value that counts only when `ok` holds of it; else `default`.
pub open spec fn checked_or(v: Option<Seq<char>>, ok: bool, default: Seq<char>) -> Seq<char> {
    match v {
        Some(x) => if ok {
            x
        } else {
            default
        },
        None => default,
    }
}

/// The stored download concurrency, when it reads as a number from 1 to 8; else 3.
pub open spec fn stored_concurrency(v: Option<Seq<char>>) -> nat {
    match v {
        Some(raw) => match parse_bounded_spec(trim_spec(raw), u32::MAX as nat) {
            Some(n) => if valid_max_concurrent_downloads(n) {
                n
            } else {
                3
            },
            None => 3,
        },
        None => 3,
    }
}

/// A stored switch; unset or unreadable reads as on.
pub open spec fn stored_switch(v: Option<Seq<char>>) -> bool {
    match v {
        Some(raw) => match parse_bool_spec(raw) {
            Some(b) => b,
            None => true,
        },
        None => true,
    }
}

/// A stored cookie, normalized; unset reads as empty.
pub open spec fn stored_cookie(v: Option<Seq<char>>) -> Seq<char> {
    match v {
        Some(c) => normalize_cookie_spec(c),
        None => seq![],
    }
}

/// A stored check status; unset or blank reads as `not_configured` when there
/// is no cookie and `unchecked` when there is.
pub open spec fn stored_check_status(v: Option<Seq<char>>, cookie: Seq<char>) -> Seq<char> {
    match optional_trim_spec(v) {
        Some(s) => s,
        None => if cookie.len() == 0 {
            "not_configured"@
        } else {
            "unchecked"@
        },
    }
}

/// The settings that the stored values `get` give, with `default_dir` as the
/// export directory when none is stored.
pub open spec fn settings_spec(get: spec_fn(SettingKey) -> Option<Seq<char>>, default_dir: Seq<
    char,
>) -> SettingsView {
    let theme = get(SettingKey::ThemeMode);
    let style = get(SettingKey::LiquidGlassStyle);
    let accent = get(SettingKey::AccentColor);
    let locale = get(SettingKey::Locale);
    let douyin_cookie = stored_cookie(get(SettingKey::DouyinCookie));
    let tiktok_cookie = stored_cookie(get(SettingKey::TiktokCookie));
    SettingsView {
        theme_mode: checked_or(theme, valid_theme_mode(theme.unwrap()), "auto"@),
        liquid_glass_style: checked_or(
            style,
            valid_liquid_glass_style(style.unwrap()),
            "transparent"@,
        ),
        accent_color: checked_or(accent, valid_accent_color(accent.unwrap()), "#2f6dff"@),
        locale: checked_or(locale, valid_locale(locale.unwrap()), "zh-CN"@),
        export_dir: match get(SettingKey::ExportDir) {
            Some(d) => d,
            None => default_dir,
        },
        max_concurrent_downloads: stored_concurrency(get(SettingKey::MaxConcurrentDownloads)),
        download_notifications_enabled: stored_switch(
            get(SettingKey::DownloadNotificationsEnabled),
        ),
        douyin_cookie: douyin_cookie,
        douyin_cookie_updated_at: optional_trim_spec(get(SettingKey::DouyinCookieUpdatedAt)),
        douyin_last_checked_at: optional_trim_spec(get(SettingKey::DouyinLastCheckedAt)),
        douyin_last_check_status: stored_check_status(
            get(SettingKey::DouyinLastCheckStatus),
            douyin_cookie,
        ),
        douyin_last_check_message: optional_trim_spec(get(SettingKey::DouyinLastCheckMessage)),
        tiktok_cookie: tiktok_cookie,
        tiktok_cookie_updated_at: optional_trim_spec(get(SettingKey::TiktokCookieUpdatedAt)),
        tiktok_last_checked_at: optional_trim_spec(get(SettingKey::TiktokLastCheckedAt)),
        tiktok_last_check_status: stored_check_status(
            get(SettingKey::TiktokLastCheckStatus),
            tiktok_cookie,
        ),
        tiktok_last_check_message: optional_trim_spec(get(SettingKey::TiktokLastCheckMessage)),
        auto_check_updates: stored_switch(get(SettingKey::AutoCheckUpdates)),
        last_update_check_at: get(SettingKey::LastUpdateCheckAt),
        last_update_status: get(SettingKey::LastUpdateStatus),
    }
}

fn read_checked(
    meta: &Vec<MetaWrite>,
    key: SettingKey,
    default: &str,
) -> (r: String)
    ensures
        r@ == checked_or(
            entry_lookup(entries_view(meta@), key),
            match key {
                SettingKey::ThemeMode => valid_theme_mode(entry_lookup(entries_view(meta@), key).unwrap()),
                SettingKey::LiquidGlassStyle => valid_liquid_glass_style(entry_lookup(entries_view(meta@), key).unwrap()),
                SettingKey::AccentColor => valid_accent_color(entry_lookup(entries_view(meta@), key).unwrap()),
                SettingKey::Locale => valid_locale(entry_lookup(entries_view(meta@), key).unwrap()),
                _ => true,
            },
            default@,
        ),
{
    match lookup_meta(meta, key) {
        Some(v) => {
            let ok = match key {
                SettingKey::ThemeMode => validate_theme_mode(v.as_str()).is_ok(),
                SettingKey::LiquidGlassStyle => validate_liquid_glass_style(v.as_str()).is_ok(),
                SettingKey::AccentColor => validate_accent_color(v.as_str()).is_ok(),
                SettingKey::Locale => validate_locale(v.as_str()).is_ok(),
                _ => true,
            };
            if ok {
                v
            } else {
                default.to_owned()
            }
        },
        None => default.to_owned(),
    }
}

fn read_check_status(meta: &Vec<MetaWrite>, key: SettingKey, cookie: &String) -> (r: String)
    ensures
        r@ == stored_check_status(entry_lookup(entries_view(meta@), key), cookie@),
{
    match optional_trim(lookup_meta(meta, key)) {
        Some(s) => s,
        None => if cookie.as_str().is_empty() {
            "not_configured".to_owned()
        } else {
            "unchecked".to_owned()
        },
    }
}

fn read_switch(meta: &Vec<MetaWrite>, key: SettingKey) -> (r: bool)
    ensures
        r == stored_switch(entry_lookup(entries_view(meta@), key)),
{
    match lookup_meta(meta, key) {
        Some(raw) => match parse_bool(raw.as_str()) {
            Some(b) => b,
            None => true,
        },
        None => true,
    }
}

fn read_cookie(meta: &Vec<MetaWrite>, key: SettingKey) -> (r: String)
    ensures
        r@ == stored_cookie(entry_lookup(entries_view(meta@), key)),
{
    match lookup_meta(meta, key) {
        Some(c) => normalize_download_cookie(c.as_str()),
        None => String::new(),
    }
}

fn read_concurrency(meta: &Vec<MetaWrite>) -> (r: u32)
    ensures
        r as nat == stored_concurrency(entry_lookup(entries_view(meta@), SettingKey::MaxConcurrentDownloads)),
{
    match lookup_meta(meta, SettingKey::MaxConcurrentDownloads) {
        Some(raw) => {
            let t = trim_str(raw.as_str());
            match parse_bounded(t.as_str(), 0xffff_ffff) {
                Some(n) => if 1 <= n && n <= 8 {
                    n as u32
                } else {
                    3
                },
                None => 3,
            }
        },
        None => 3,
    }
}

/// The settings that the stored values `meta` give; `default_export_dir` is
/// the export directory when none is stored.
pub fn settings_from_meta(meta: &Vec<MetaWrite>, default_export_dir: &str) -> (s: AppSettings)
    ensures
        s@ == settings_spec(|k: SettingKey| entry_lookup(entries_view(meta@), k), default_export_dir@),
{
    let douyin_cookie = read_cookie(meta, SettingKey::DouyinCookie);
    let tiktok_cookie = read_cookie(meta, SettingKey::TiktokCookie);
    let douyin_last_check_status = read_check_status(meta, SettingKey::DouyinLastCheckStatus, &douyin_cookie);
    let tiktok_last_check_status = read_check_status(meta, SettingKey::TiktokLastCheckStatus, &tiktok_cookie);
    let s = AppSettings {
        theme_mode: read_checked(meta, SettingKey::ThemeMode, "auto"),
        liquid_glass_style: read_checked(meta, SettingKey::LiquidGlassStyle, "transparent"),
        accent_color: read_checked(meta, SettingKey::AccentColor, "#2f6dff"),
        locale: read_checked(meta, SettingKey::Locale, "zh-CN"),
        export_dir: match lookup_meta(meta, SettingKey::ExportDir) {
            Some(d) => d,
            None => default_export_dir.to_owned(),
        },
        max_concurrent_downloads: read_concurrency(meta),
        download_notifications_enabled: read_switch(meta, SettingKey::DownloadNotificationsEnabled),
        douyin_cookie,
        douyin_cookie_updated_at: optional_trim(lookup_meta(meta, SettingKey::DouyinCookieUpdatedAt)),
        douyin_last_checked_at: optional_trim(lookup_meta(meta, SettingKey::DouyinLastCheckedAt)),
        douyin_last_check_status,
        douyin_last_check_message: optional_trim(lookup_meta(meta, SettingKey::DouyinLastCheckMessage)),
        tiktok_cookie,
        tiktok_cookie_updated_at: optional_trim(lookup_meta(meta, SettingKey::TiktokCookieUpdatedAt)),
        tiktok_last_checked_at: optional_trim(lookup_meta(meta, SettingKey::TiktokLastCheckedAt)),
        tiktok_last_check_status,
        tiktok_last_check_message: optional_trim(lookup_meta(meta, SettingKey::TiktokLastCheckMessage)),
        auto_check_updates: read_switch(meta, SettingKey::AutoCheckUpdates),
        last_update_check_at: lookup_meta(meta, SettingKey::LastUpdateCheckAt),
        last_update_status: lookup_meta(meta, SettingKey::LastUpdateStatus),
    };
    s
}


// ----- writing settings -----

/// A settings change as plain values.
pub struct PatchView {
    pub theme_mode: Option<Seq<char>>,
    pub liquid_glass_style: Option<Seq<char>>,
    pub accent_color: Option<Seq<char>>,
    pub locale: Option<Seq<char>>,
    pub export_dir: Option<Seq<char>>,
    pub max_concurrent_downloads: Option<u32>,
    pub download_notifications_enabled: Option<bool>,
    pub douyin_cookie: Option<Seq<char>>,
    pub tiktok_cookie: Option<Seq<char>>,
    pub auto_check_updates: Option<bool>,
}

impl View for AppSettingsPatch {
    type V = PatchView;

    open spec fn view(&self) -> PatchView {
        PatchView {
            theme_mode: opt_view(self.theme_mode),
            liquid_glass_style: opt_view(self.liquid_glass_style),
            accent_color: opt_view(self.accent_color),
            locale: opt_view(self.locale),
            export_dir: opt_view(self.export_dir),
            max_concurrent_downloads: self.max_concurrent_downloads,
            download_notifications_enabled: self.download_notifications_enabled,
            douyin_cookie: opt_view(self.douyin_cookie),
            tiktok_cookie: opt_view(self.tiktok_cookie),
            auto_check_updates: self.auto_check_updates,
        }
    }
}

/// The view of an optional error.
pub open spec fn err_view(e: Option<AppError>) -> Option<(ErrorKind, Seq<char>)> {
    match e {
        Some(x) => Some(x@),
        None => None,
    }
}

/// The writes made so far, and the error that stopped them, if any.
pub type PlanView = (Seq<(SettingKey, Seq<char>)>, Option<(ErrorKind, Seq<char>)>);

/// Whether `v` is an acceptable value for the validated text setting `key`.
pub open spec fn text_setting_valid(key: SettingKey, v: Seq<char>) -> bool {
    match key {
        SettingKey::ThemeMode => valid_theme_mode(v),
        SettingKey::LiquidGlassStyle => valid_liquid_glass_style(v),
        SettingKey::AccentColor => valid_accent_color(v),
        SettingKey::Locale => valid_locale(v),
        _ => true,
    }
}

/// The message of the error for an unacceptable value of `key`.
pub open spec fn text_setting_message(key: SettingKey) -> Seq<char> {
    match key {
        SettingKey::ThemeMode => "themeMode must be one of auto/light/dark"@,
        SettingKey::LiquidGlassStyle => "liquidGlassStyle must be one of transparent/tinted"@,
        SettingKey::AccentColor => "accentColor must be a hex color like #2f6dff"@,
        SettingKey::Locale => "locale must be one of zh-CN/en-US"@,
        _ => seq![],
    }
}

/// A text setting: when present it is checked, then written trimmed.
pub open spec fn text_step(plan: PlanView, field: Option<Seq<char>>, key: SettingKey) -> PlanView {
    if plan.1 is Some {
        plan
    } else {
        match field {
            None => plan,
            Some(v) => if text_setting_valid(key, v) {
                (plan.0.push((key, trim_spec(v))), None)
            } else {
                (plan.0, Some(validation_error(text_setting_message(key))))
            },
        }
    }
}

/// The download concurrency: when present it is checked, then written in decimal.
pub open spec fn concurrency_step(plan: PlanView, field: Option<u32>) -> PlanView {
    if plan.1 is Some {
        plan
    } else {
        match field {
            None => plan,
            Some(n) => if valid_max_concurrent_downloads(n as nat) {
                (plan.0.push((SettingKey::MaxConcurrentDownloads, decimal_spec(n as nat))), None)
            } else {
                (plan.0, Some(validation_error("maxConcurrentDownloads must be between 1 and 8"@)))
            },
        }
    }
}

/// How a switch is stored.
pub open spec fn switch_text(b: bool) -> Seq<char> {
    if b {
        "true"@
    } else {
        "false"@
    }
}

/// A switch: when present it is written as `true` or `false`.
pub open spec fn switch_step(plan: PlanView, field: Option<bool>, key: SettingKey) -> PlanView {
    if plan.1 is Some {
        plan
    } else {
        match field {
            None => plan,
            Some(b) => (plan.0.push((key, switch_text(b))), None),
        }
    }
}

/// The platforms whose cookies the settings keep.
#[derive(Clone, Copy, PartialEq, Eq, Structural, Debug)]
pub enum CookiePlatform {
    Douyin,
    Tiktok,
}

/// The keys of one platform's cookie and check state: cookie, time it was set,
/// time of the last check, status of the last check, message of the last check.
pub open spec fn cookie_keys(p: CookiePlatform) -> (SettingKey, SettingKey, SettingKey, SettingKey, SettingKey) {
    match p {
        CookiePlatform::Douyin => (
            SettingKey::DouyinCookie,
            SettingKey::DouyinCookieUpdatedAt,
            SettingKey::DouyinLastCheckedAt,
            SettingKey::DouyinLastCheckStatus,
            SettingKey::DouyinLastCheckMessage,
        ),
        CookiePlatform::Tiktok => (
            SettingKey::TiktokCookie,
            SettingKey::TiktokCookieUpdatedAt,
            SettingKey::TiktokLastCheckedAt,
            SettingKey::TiktokLastCheckStatus,
            SettingKey::TiktokLastCheckMessage,
        ),
    }
}

/// What storing the normalized cookie `n` writes: the cookie, then a reset
/// check state (`unchecked`, stamped `now`) or, for an empty cookie, a
/// cleared one (`not_configured`).
pub open spec fn cookie_writes(p: CookiePlatform, n: Seq<char>, now: Seq<char>) -> Seq<(SettingKey, Seq<char>)> {
    let (kc, ku, kt, ks, km) = cookie_keys(p);
    if n.len() == 0 {
        seq![(kc, n), (ku, seq![]), (kt, seq![]), (ks, "not_configured"@), (km, seq![])]
    } else {
        seq![(kc, n), (ku, now), (kt, seq![]), (ks, "unchecked"@), (km, seq![])]
    }
}

/// A cookie: when present it is normalized and written with its check state.
pub open spec fn cookie_step(plan: PlanView, field: Option<Seq<char>>, p: CookiePlatform, now: Seq<char>) -> PlanView {
    if plan.1 is Some {
        plan
    } else {
        match field {
            None => plan,
            Some(c) => (plan.0 + cookie_writes(p, normalize_cookie_spec(c), now), None),
        }
    }
}

/// The writes a settings change makes, in order, and the validation error
/// that stops it (the writes before the failing field are still made).
pub open spec fn settings_update_spec(p: PatchView, now: Seq<char>) -> PlanView {
    let s0: PlanView = (seq![], None);
    let s1 = text_step(s0, p.theme_mode, SettingKey::ThemeMode);
    let s2 = text_step(s1, p.liquid_glass_style, SettingKey::LiquidGlassStyle);
    let s3 = text_step(s2, p.accent_color, SettingKey::AccentColor);
    let s4 = text_step(s3, p.locale, SettingKey::Locale);
    let s5 = text_step(s4, p.export_dir, SettingKey::ExportDir);
    let s6 = concurrency_step(s5, p.max_concurrent_downloads);
    let s7 = switch_step(s6, p.download_notifications_enabled, SettingKey::DownloadNotificationsEnabled);
    let s8 = cookie_step(s7, p.douyin_cookie, CookiePlatform::Douyin, now);
    let s9 = cookie_step(s8, p.tiktok_cookie, CookiePlatform::Tiktok, now);
    switch_step(s9, p.auto_check_updates, SettingKey::AutoCheckUpdates)
}

/// The writes of a settings change and the error that stopped it.
#[derive(Debug)]
pub struct SettingsPlan {
    pub writes: Vec<MetaWrite>,
    pub error: Option<AppError>,
}

fn push_write(writes: &mut Vec<MetaWrite>, key: SettingKey, value: String)
    ensures
        entries_view(final(writes)@) == entries_view(old(writes)@).push((key, value@)),
{
    writes.push(MetaWrite { key, value });
    assert(entries_view(writes@) =~= entries_view(old(writes)@).push((key, value@)));
}

fn text_setting_check(key: SettingKey, v: &str) -> (r: Result<(), AppError>)
    ensures
        r is Ok <==> text_setting_valid(key, v@),
        r matches Err(e) ==> e@ == validation_error(text_setting_message(key)),
{
    match key {
        SettingKey::ThemeMode => validate_theme_mode(v),
        SettingKey::LiquidGlassStyle => validate_liquid_glass_style(v),
        SettingKey::AccentColor => validate_accent_color(v),
        SettingKey::Locale => validate_locale(v),
        _ => Ok(()),
    }
}

fn apply_text_step(writes: &mut Vec<MetaWrite>, field: &Option<String>, key: SettingKey) -> (e: Option<AppError>)
    ensures
        (entries_view(final(writes)@), err_view(e)) == text_step(
            (entries_view(old(writes)@), None),
            opt_view(*field),
            key,
        ),
{
    match field {
        None => None,
        Some(v) => match text_setting_check(key, v.as_str()) {
            Ok(()) => {
                push_write(writes, key, trim_str(v.as_str()));
                None
            },
            Err(e) => Some(e),
        },
    }
}

fn apply_switch_step(writes: &mut Vec<MetaWrite>, field: Option<bool>, key: SettingKey)
    ensures
        (entries_view(final(writes)@), None::<(ErrorKind, Seq<char>)>) == switch_step(
            (entries_view(old(writes)@), None),
            field,
            key,
        ),
{
    match field {
        None => {},
        Some(b) => {
            let text = if b {
                "true"
            } else {
                "false"
            };
            push_write(writes, key, text.to_owned());
        },
    }
}

fn cookie_key_set(p: CookiePlatform) -> (r: (SettingKey, SettingKey, SettingKey, SettingKey, SettingKey))
    ensures
        r == cookie_keys(p),
{
    match p {
        CookiePlatform::Douyin => (
            SettingKey::DouyinCookie,
            SettingKey::DouyinCookieUpdatedAt,
            SettingKey::DouyinLastCheckedAt,
            SettingKey::DouyinLastCheckStatus,
            SettingKey::DouyinLastCheckMessage,
        ),
        CookiePlatform::Tiktok => (
            SettingKey::TiktokCookie,
            SettingKey::TiktokCookieUpdatedAt,
            SettingKey::TiktokLastCheckedAt,
            SettingKey::TiktokLastCheckStatus,
            SettingKey::TiktokLastCheckMessage,
        ),
    }
}

fn apply_cookie_step(writes: &mut Vec<MetaWrite>, field: &Option<String>, p: CookiePlatform, now: &str)
    ensures
        (entries_view(final(writes)@), None::<(ErrorKind, Seq<char>)>) == cookie_step(
            (entries_view(old(writes)@), None),
            opt_view(*field),
            p,
            now@,
        ),
{
    match field {
        None => {},
        Some(c) => {
            let n = normalize_download_cookie(c.as_str());
            let (kc, ku, kt, ks, km) = cookie_key_set(p);
            let empty = n.as_str().is_empty();
            push_write(writes, kc, n);
            if empty {
                push_write(writes, ku, String::new());
                push_write(writes, kt, String::new());
                push_write(writes, ks, "not_configured".to_owned());
                push_write(writes, km, String::new());
            } else {
                push_write(writes, ku, now.to_owned());
                push_write(writes, kt, String::new());
                push_write(writes, ks, "unchecked".to_owned());
                push_write(writes, km, String::new());
            }
            assert(entries_view(writes@) =~= entries_view(old(writes)@) + cookie_writes(
                p,
                normalize_cookie_spec(c@),
                now@,
            ));
        },
    }
}

/// The writes a settings change makes and the validation error that stops
/// it; `now` stamps a newly set cookie.
pub fn settings_update_plan(patch: &AppSettingsPatch, now: &str) -> (r: SettingsPlan)
    ensures
        (entries_view(r.writes@), err_view(r.error)) == settings_update_spec(patch@, now@),
{
    let mut writes: Vec<MetaWrite> = Vec::new();
    assert(entries_view(writes@) =~= Seq::<(SettingKey, Seq<char>)>::empty());
    if let Some(e) = apply_text_step(&mut writes, &patch.theme_mode, SettingKey::ThemeMode) {
        return SettingsPlan { writes, error: Some(e) };
    }
    if let Some(e) = apply_text_step(&mut writes, &patch.liquid_glass_style, SettingKey::LiquidGlassStyle) {
        return SettingsPlan { writes, error: Some(e) };
    }
    if let Some(e) = apply_text_step(&mut writes, &patch.accent_color, SettingKey::AccentColor) {
        return SettingsPlan { writes, error: Some(e) };
    }
    if let Some(e) = apply_text_step(&mut writes, &patch.locale, SettingKey::Locale) {
        return SettingsPlan { writes, error: Some(e) };
    }
    if let Some(e) = apply_text_step(&mut writes, &patch.export_dir, SettingKey::ExportDir) {
        return SettingsPlan { writes, error: Some(e) };
    }
    if let Some(n) = patch.max_concurrent_downloads {
        match validate_max_concurrent_downloads(n) {
            Ok(()) => push_write(&mut writes, SettingKey::MaxConcurrentDownloads, decimal_string(n as u64)),
            Err(e) => {
                return SettingsPlan { writes, error: Some(e) };
            },
        }
    }
    apply_switch_step(&mut writes, patch.download_notifications_enabled, SettingKey::DownloadNotificationsEnabled);
    apply_cookie_step(&mut writes, &patch.douyin_cookie, CookiePlatform::Douyin, now);
    apply_cookie_step(&mut writes, &patch.tiktok_cookie, CookiePlatform::Tiktok, now);
    apply_switch_step(&mut writes, patch.auto_check_updates, SettingKey::AutoCheckUpdates);
    SettingsPlan { writes, error: None }
}



// ----- cookie validation results -----

/// The platform named by `s` (after trimming), if it is one whose cookie the
/// settings keep.
pub open spec fn cookie_platform_of(s: Seq<char>) -> Option<CookiePlatform> {
    if trim_spec(s) == "douyin"@ {
        Some(CookiePlatform::Douyin)
    } else if trim_spec(s) == "tiktok"@ {
        Some(CookiePlatform::Tiktok)
    } else {
        None
    }
}

/// The platform named by `s`, if its cookie is kept.
pub fn cookie_platform(s: &str) -> (r: Option<CookiePlatform>)
    ensures
        r == cookie_platform_of(s@),
{
    let t = trim_str(s);
    if str_eq(t.as_str(), "douyin") {
        Some(CookiePlatform::Douyin)
    } else if str_eq(t.as_str(), "tiktok") {
        Some(CookiePlatform::Tiktok)
    } else {
        None
    }
}

/// What storing a cookie check writes: its time, status and message, under
/// the keys of the checked platform.
pub open spec fn token_validation_writes_spec(platform: CookiePlatform, checked_at: Seq<char>, status: Seq<char>, message: Seq<char>) -> Seq<(SettingKey, Seq<char>)> {
    let (_kc, _ku, kt, ks, km) = cookie_keys(platform);
    seq![(kt, checked_at), (ks, status), (km, message)]
}

/// The writes that record a cookie check; a check for a platform other than
/// `douyin` or `tiktok` is refused.
pub fn persist_token_validation_writes(result: &TokenValidationResult) -> (r: Result<Vec<MetaWrite>, AppError>)
    ensures
        r is Ok <==> cookie_platform_of(result.platform@) is Some,
        r matches Ok(w) ==> entries_view(w@) == token_validation_writes_spec(
            cookie_platform_of(result.platform@).unwrap(),
            result.checked_at@,
            result.status@,
            result.message@,
        ),
        r matches Err(e) ==> e@ == validation_error("platform must be one of douyin/tiktok"@),
{
    match cookie_platform(result.platform.as_str()) {
        Some(p) => {
            let (_kc, _ku, kt, ks, km) = cookie_key_set(p);
            let mut w: Vec<MetaWrite> = Vec::new();
            push_write(&mut w, kt, result.checked_at.clone());
            push_write(&mut w, ks, result.status.clone());
            push_write(&mut w, km, result.message.clone());
            assert(entries_view(w@) =~= token_validation_writes_spec(p, result.checked_at@, result.status@, result.message@));
            Ok(w)
        },
        None => Err(validation("platform must be one of douyin/tiktok")),
    }
}

/// Checks a cookie-validation request: the platform must be `douyin` or
/// `tiktok` and the normalized cookie must not be empty. Gives the normalized
/// cookie.
pub fn token_validation_cookie(payload_platform: &str, payload_cookie: &str) -> (r: Result<String, AppError>)
    ensures
        r is Ok <==> crate::submit::is_supported_platform(payload_platform@) && normalize_cookie_spec(
            payload_cookie@,
        ).len() > 0,
        r matches Ok(c) ==> c@ == normalize_cookie_spec(payload_cookie@),
        r matches Err(e) ==> e@ == if !crate::submit::is_supported_platform(payload_platform@) {
            validation_error(crate::submit::platform_error_message())
        } else {
            validation_error("cookie is required"@)
        },
{
    crate::submit::validate_download_platform(payload_platform)?;
    let normalized = normalize_download_cookie(payload_cookie);
    if normalized.as_str().is_empty() {
        return Err(validation("cookie is required"));
    }
    Ok(normalized)
}

// ----- reading back what was written -----

proof fn lemma_lookup_push(e: Seq<(SettingKey, Seq<char>)>, x: (SettingKey, Seq<char>), k: SettingKey)
    ensures
        entry_lookup(e.push(x), k) == if x.0 == k {
            Some(x.1)
        } else {
            entry_lookup(e, k)
        },
{
    assert(e.push(x).drop_last() =~= e);
}

proof fn lemma_text_step_lookup(plan: PlanView, field: Option<Seq<char>>, key: SettingKey, k: SettingKey)
    requires
        plan.1 is None,
        text_step(plan, field, key).1 is None,
    ensures
        entry_lookup(text_step(plan, field, key).0, k) == if k == key && field is Some {
            Some(trim_spec(field.unwrap()))
        } else {
            entry_lookup(plan.0, k)
        },
{
    if let Some(v) = field {
        lemma_lookup_push(plan.0, (key, trim_spec(v)), k);
    }
}

proof fn lemma_switch_step_lookup(plan: PlanView, field: Option<bool>, key: SettingKey, k: SettingKey)
    requires
        plan.1 is None,
    ensures
        switch_step(plan, field, key).1 is None,
        entry_lookup(switch_step(plan, field, key).0, k) == if k == key && field is Some {
            Some(switch_text(field.unwrap()))
        } else {
            entry_lookup(plan.0, k)
        },
{
    if let Some(b) = field {
        lemma_lookup_push(plan.0, (key, switch_text(b)), k);
    }
}

proof fn lemma_concurrency_step_lookup(plan: PlanView, field: Option<u32>, k: SettingKey)
    requires
        plan.1 is None,
        concurrency_step(plan, field).1 is None,
    ensures
        entry_lookup(concurrency_step(plan, field).0, k) == if k == SettingKey::MaxConcurrentDownloads
            && field is Some {
            Some(decimal_spec(field.unwrap() as nat))
        } else {
            entry_lookup(plan.0, k)
        },
        field matches Some(n) ==> valid_max_concurrent_downloads(n as nat),
{
    if let Some(n) = field {
        lemma_lookup_push(plan.0, (SettingKey::MaxConcurrentDownloads, decimal_spec(n as nat)), k);
    }
}

/// What a cookie change leaves stored under `k`, if it touches `k`.
pub open spec fn cookie_write_for(p: CookiePlatform, n: Seq<char>, now: Seq<char>, k: SettingKey) -> Option<Seq<char>> {
    let (kc, ku, kt, ks, km) = cookie_keys(p);
    if k == kc {
        Some(n)
    } else if k == ku {
        Some(if n.len() == 0 { seq![] } else { now })
    } else if k == kt {
        Some(seq![])
    } else if k == ks {
        Some(if n.len() == 0 { "not_configured"@ } else { "unchecked"@ })
    } else if k == km {
        Some(seq![])
    } else {
        None
    }
}

proof fn lemma_cookie_step_lookup(plan: PlanView, field: Option<Seq<char>>, p: CookiePlatform, now: Seq<char>, k: SettingKey)
    requires
        plan.1 is None,
    ensures
        cookie_step(plan, field, p, now).1 is None,
        entry_lookup(cookie_step(plan, field, p, now).0, k) == match field {
            Some(c) => match cookie_write_for(p, normalize_cookie_spec(c), now, k) {
                Some(v) => Some(v),
                None => entry_lookup(plan.0, k),
            },
            None => entry_lookup(plan.0, k),
        },
{
    if let Some(c) = field {
        let n = normalize_cookie_spec(c);
        let w = cookie_writes(p, n, now);
        let e = plan.0;
        assert(e + w =~= e.push(w[0]).push(w[1]).push(w[2]).push(w[3]).push(w[4]));
        lemma_lookup_push(e, w[0], k);
        lemma_lookup_push(e.push(w[0]), w[1], k);
        lemma_lookup_push(e.push(w[0]).push(w[1]), w[2], k);
        lemma_lookup_push(e.push(w[0]).push(w[1]).push(w[2]), w[3], k);
        lemma_lookup_push(e.push(w[0]).push(w[1]).push(w[2]).push(w[3]), w[4], k);
    }
}

/// After a successful settings change, the stored value of `k` is the one
/// the change wrote, if it wrote `k`, else the old one.
pub open spec fn written_value(p: PatchView, now: Seq<char>, k: SettingKey) -> Option<Seq<char>> {
    match k {
        SettingKey::ThemeMode => match p.theme_mode { Some(v) => Some(trim_spec(v)), None => None },
        SettingKey::LiquidGlassStyle => match p.liquid_glass_style { Some(v) => Some(trim_spec(v)), None => None },
        SettingKey::AccentColor => match p.accent_color { Some(v) => Some(trim_spec(v)), None => None },
        SettingKey::Locale => match p.locale { Some(v) => Some(trim_spec(v)), None => None },
        SettingKey::ExportDir => match p.export_dir { Some(v) => Some(trim_spec(v)), None => None },
        SettingKey::MaxConcurrentDownloads => match p.max_concurrent_downloads {
            Some(n) => Some(decimal_spec(n as nat)),
            None => None,
        },
        SettingKey::DownloadNotificationsEnabled => match p.download_notifications_enabled {
            Some(b) => Some(switch_text(b)),
            None => None,
        },
        SettingKey::AutoCheckUpdates => match p.auto_check_updates {
            Some(b) => Some(switch_text(b)),
            None => None,
        },
        SettingKey::LastUpdateCheckAt => None,
        SettingKey::LastUpdateStatus => None,
        _ => match p.tiktok_cookie {
            Some(c) => match cookie_write_for(CookiePlatform::Tiktok, normalize_cookie_spec(c), now, k) {
                Some(v) => Some(v),
                None => match p.douyin_cookie {
                    Some(d) => cookie_write_for(CookiePlatform::Douyin, normalize_cookie_spec(d), now, k),
                    None => None,
                },
            },
            None => match p.douyin_cookie {
                Some(d) => cookie_write_for(CookiePlatform::Douyin, normalize_cookie_spec(d), now, k),
                None => None,
            },
        },
    }
}

/// Which writes a successful settings change makes, key by key.
pub proof fn lemma_update_writes_by_key(p: PatchView, now: Seq<char>, k: SettingKey)
    requires
        settings_update_spec(p, now).1 is None,
    ensures
        entry_lookup(settings_update_spec(p, now).0, k) == written_value(p, now, k),
        p.max_concurrent_downloads matches Some(n) ==> valid_max_concurrent_downloads(n as nat),
        p.theme_mode matches Some(v) ==> valid_theme_mode(v),
        p.liquid_glass_style matches Some(v) ==> valid_liquid_glass_style(v),
        p.accent_color matches Some(v) ==> valid_accent_color(v),
        p.locale matches Some(v) ==> valid_locale(v),
{
    let s0: PlanView = (seq![], None);
    let s1 = text_step(s0, p.theme_mode, SettingKey::ThemeMode);
    let s2 = text_step(s1, p.liquid_glass_style, SettingKey::LiquidGlassStyle);
    let s3 = text_step(s2, p.accent_color, SettingKey::AccentColor);
    let s4 = text_step(s3, p.locale, SettingKey::Locale);
    let s5 = text_step(s4, p.export_dir, SettingKey::ExportDir);
    let s6 = concurrency_step(s5, p.max_concurrent_downloads);
    let s7 = switch_step(s6, p.download_notifications_enabled, SettingKey::DownloadNotificationsEnabled);
    let s8 = cookie_step(s7, p.douyin_cookie, CookiePlatform::Douyin, now);
    let s9 = cookie_step(s8, p.tiktok_cookie, CookiePlatform::Tiktok, now);
    let s10 = switch_step(s9, p.auto_check_updates, SettingKey::AutoCheckUpdates);
    assert(s1.1 is None && s2.1 is None && s3.1 is None && s4.1 is None && s5.1 is None && s6.1 is None);
    lemma_text_step_lookup(s0, p.theme_mode, SettingKey::ThemeMode, k);
    lemma_text_step_lookup(s1, p.liquid_glass_style, SettingKey::LiquidGlassStyle, k);
    lemma_text_step_lookup(s2, p.accent_color, SettingKey::AccentColor, k);
    lemma_text_step_lookup(s3, p.locale, SettingKey::Locale, k);
    lemma_text_step_lookup(s4, p.export_dir, SettingKey::ExportDir, k);
    lemma_concurrency_step_lookup(s5, p.max_concurrent_downloads, k);
    lemma_switch_step_lookup(s6, p.download_notifications_enabled, SettingKey::DownloadNotificationsEnabled, k);
    lemma_cookie_step_lookup(s7, p.douyin_cookie, CookiePlatform::Douyin, now, k);
    lemma_cookie_step_lookup(s8, p.tiktok_cookie, CookiePlatform::Tiktok, now, k);
    lemma_switch_step_lookup(s9, p.auto_check_updates, SettingKey::AutoCheckUpdates, k);
}


proof fn lemma_switch_text_reads_back(b: bool)
    ensures
        parse_bool_spec(switch_text(b)) == Some(b),
{
    reveal_strlit("true");
    reveal_strlit("false");
    reveal_strlit("1");
    reveal_strlit("yes");
    reveal_strlit("on");
    let t = switch_text(b);
    lemma_trim_fixed(t);
    assert(ascii_lower_seq(t) =~= t);
}

proof fn lemma_status_text_reads_back(n: Seq<char>)
    ensures
        optional_trim_spec(Some(if n.len() == 0 { "not_configured"@ } else { "unchecked"@ }))
            == Some(if n.len() == 0 { "not_configured"@ } else { "unchecked"@ }),
        optional_trim_spec(Some(Seq::<char>::empty())) == None::<Seq<char>>,
{
    reveal_strlit("not_configured");
    reveal_strlit("unchecked");
    lemma_trim_fixed("not_configured"@);
    lemma_trim_fixed("unchecked"@);
    lemma_trim_fixed(Seq::<char>::empty());
}

/// Reading the settings back after a successful change gives what was set:
/// text settings trimmed, the concurrency and switches as given, a cookie
/// normalized with its check state reset (`unchecked`, or `not_configured`
/// for an empty cookie) and its last check time and message cleared,
/// whatever was stored before.
pub proof fn law_settings_read_back_after_update(
    store: spec_fn(SettingKey) -> Option<Seq<char>>,
    p: PatchView,
    now: Seq<char>,
    default_dir: Seq<char>,
)
    requires
        settings_update_spec(p, now).1 is None,
    ensures
        ({
            let w = settings_update_spec(p, now).0;
            let s = settings_spec(|k: SettingKey| store_after(store, w, k), default_dir);
            &&& p.theme_mode matches Some(v) ==> s.theme_mode == trim_spec(v)
            &&& p.liquid_glass_style matches Some(v) ==> s.liquid_glass_style == trim_spec(v)
            &&& p.accent_color matches Some(v) ==> s.accent_color == trim_spec(v)
            &&& p.locale matches Some(v) ==> s.locale == trim_spec(v)
            &&& p.export_dir matches Some(v) ==> s.export_dir == trim_spec(v)
            &&& p.max_concurrent_downloads matches Some(n) ==> s.max_concurrent_downloads == n
            &&& p.download_notifications_enabled matches Some(b) ==> s.download_notifications_enabled == b
            &&& p.auto_check_updates matches Some(b) ==> s.auto_check_updates == b
            &&& p.douyin_cookie matches Some(c) ==> {
                &&& s.douyin_cookie == normalize_cookie_spec(c)
                &&& s.douyin_last_check_status == if normalize_cookie_spec(c).len() == 0 {
                    "not_configured"@
                } else {
                    "unchecked"@
                }
                &&& s.douyin_last_checked_at is None
                &&& s.douyin_last_check_message is None
            }
            &&& p.tiktok_cookie matches Some(c) ==> {
                &&& s.tiktok_cookie == normalize_cookie_spec(c)
                &&& s.tiktok_last_check_status == if normalize_cookie_spec(c).len() == 0 {
                    "not_configured"@
                } else {
                    "unchecked"@
                }
                &&& s.tiktok_last_checked_at is None
                &&& s.tiktok_last_check_message is None
            }
        }),
{
    let w = settings_update_spec(p, now).0;
    let get = |k: SettingKey| store_after(store, w, k);
    lemma_update_writes_by_key(p, now, SettingKey::ThemeMode);
    lemma_update_writes_by_key(p, now, SettingKey::LiquidGlassStyle);
    lemma_update_writes_by_key(p, now, SettingKey::AccentColor);
    lemma_update_writes_by_key(p, now, SettingKey::Locale);
    lemma_update_writes_by_key(p, now, SettingKey::ExportDir);
    lemma_update_writes_by_key(p, now, SettingKey::MaxConcurrentDownloads);
    lemma_update_writes_by_key(p, now, SettingKey::DownloadNotificationsEnabled);
    lemma_update_writes_by_key(p, now, SettingKey::AutoCheckUpdates);
    lemma_update_writes_by_key(p, now, SettingKey::DouyinCookie);
    lemma_update_writes_by_key(p, now, SettingKey::DouyinLastCheckedAt);
    lemma_update_writes_by_key(p, now, SettingKey::DouyinLastCheckStatus);
    lemma_update_writes_by_key(p, now, SettingKey::DouyinLastCheckMessage);
    lemma_update_writes_by_key(p, now, SettingKey::TiktokCookie);
    lemma_update_writes_by_key(p, now, SettingKey::TiktokLastCheckedAt);
    lemma_update_writes_by_key(p, now, SettingKey::TiktokLastCheckStatus);
    lemma_update_writes_by_key(p, now, SettingKey::TiktokLastCheckMessage);
    if let Some(v) = p.theme_mode {
        lemma_trim_idempotent(v);
    }
    if let Some(v) = p.liquid_glass_style {
        lemma_trim_idempotent(v);
    }
    if let Some(v) = p.accent_color {
        lemma_trim_idempotent(v);
    }
    if let Some(v) = p.locale {
        lemma_trim_idempotent(v);
    }
    if let Some(n) = p.max_concurrent_downloads {
        law_decimal_round_trip(n as nat);
    }
    if let Some(b) = p.download_notifications_enabled {
        lemma_switch_text_reads_back(b);
    }
    if let Some(b) = p.auto_check_updates {
        lemma_switch_text_reads_back(b);
    }
    if let Some(c) = p.douyin_cookie {
        law_normalize_cookie_idempotent(c);
        lemma_status_text_reads_back(normalize_cookie_spec(c));
    }
    if let Some(c) = p.tiktok_cookie {
        law_normalize_cookie_idempotent(c);
        lemma_status_text_reads_back(normalize_cookie_spec(c));
    }
}

/// A successful change leaves every setting it does not mention as it
/// was: the appearance, export, download and update settings it omits, the
/// state of a platform whose cookie it omits, and the record of the last
/// update check.
pub proof fn law_update_keeps_unmentioned_settings(
    store: spec_fn(SettingKey) -> Option<Seq<char>>,
    p: PatchView,
    now: Seq<char>,
    default_dir: Seq<char>,
)
    requires
        settings_update_spec(p, now).1 is None,
    ensures
        ({
            let w = settings_update_spec(p, now).0;
            let before = settings_spec(store, default_dir);
            let s = settings_spec(|k: SettingKey| store_after(store, w, k), default_dir);
            &&& p.theme_mode is None ==> s.theme_mode == before.theme_mode
            &&& p.liquid_glass_style is None ==> s.liquid_glass_style == before.liquid_glass_style
            &&& p.accent_color is None ==> s.accent_color == before.accent_color
            &&& p.locale is None ==> s.locale == before.locale
            &&& p.export_dir is None ==> s.export_dir == before.export_dir
            &&& p.max_concurrent_downloads is None ==> s.max_concurrent_downloads == before.max_concurrent_downloads
            &&& p.download_notifications_enabled is None ==> s.download_notifications_enabled
                == before.download_notifications_enabled
            &&& p.auto_check_updates is None ==> s.auto_check_updates == before.auto_check_updates
            &&& p.douyin_cookie is None ==> {
                &&& s.douyin_cookie == before.douyin_cookie
                &&& s.douyin_cookie_updated_at == before.douyin_cookie_updated_at
                &&& s.douyin_last_checked_at == before.douyin_last_checked_at
                &&& s.douyin_last_check_status == before.douyin_last_check_status
                &&& s.douyin_last_check_message == before.douyin_last_check_message
            }
            &&& p.tiktok_cookie is None ==> {
                &&& s.tiktok_cookie == before.tiktok_cookie
                &&& s.tiktok_cookie_updated_at == before.tiktok_cookie_updated_at
                &&& s.tiktok_last_checked_at == before.tiktok_last_checked_at
                &&& s.tiktok_last_check_status == before.tiktok_last_check_status
                &&& s.tiktok_last_check_message == before.tiktok_last_check_message
            }
            &&& s.last_update_check_at == before.last_update_check_at
            &&& s.last_update_status == before.last_update_status
        }),
{
    lemma_update_writes_by_key(p, now, SettingKey::ThemeMode);
    lemma_update_writes_by_key(p, now, SettingKey::LiquidGlassStyle);
    lemma_update_writes_by_key(p, now, SettingKey::AccentColor);
    lemma_update_writes_by_key(p, now, SettingKey::Locale);
    lemma_update_writes_by_key(p, now, SettingKey::ExportDir);
    lemma_update_writes_by_key(p, now, SettingKey::MaxConcurrentDownloads);
    lemma_update_writes_by_key(p, now, SettingKey::DownloadNotificationsEnabled);
    lemma_update_writes_by_key(p, now, SettingKey::AutoCheckUpdates);
    lemma_update_writes_by_key(p, now, SettingKey::DouyinCookie);
    lemma_update_writes_by_key(p, now, SettingKey::DouyinCookieUpdatedAt);
    lemma_update_writes_by_key(p, now, SettingKey::DouyinLastCheckedAt);
    lemma_update_writes_by_key(p, now, SettingKey::DouyinLastCheckStatus);
    lemma_update_writes_by_key(p, now, SettingKey::DouyinLastCheckMessage);
    lemma_update_writes_by_key(p, now, SettingKey::TiktokCookie);
    lemma_update_writes_by_key(p, now, SettingKey::TiktokCookieUpdatedAt);
    lemma_update_writes_by_key(p, now, SettingKey::TiktokLastCheckedAt);
    lemma_update_writes_by_key(p, now, SettingKey::TiktokLastCheckStatus);
    lemma_update_writes_by_key(p, now, SettingKey::TiktokLastCheckMessage);
    lemma_update_writes_by_key(p, now, SettingKey::LastUpdateCheckAt);
    lemma_update_writes_by_key(p, now, SettingKey::LastUpdateStatus);
}


/// Both glass styles are accepted, and only they: a style is valid exactly
/// when, trimmed, it is `transparent` or `tinted`.
pub proof fn law_glass_styles_accepted(s: Seq<char>)
    ensures
        valid_liquid_glass_style(s) <==> (trim_spec(s) == "transparent"@ || trim_spec(s) == "tinted"@),
        trim_spec(s) == "tinted"@ ==> valid_liquid_glass_style(s),
        trim_spec(s) == "transparent"@ ==> valid_liquid_glass_style(s),
{
}

/// A change of the glass style alone to an accepted style is planned as one
/// write of the trimmed style and no error; to any other style, as no write
/// and the glass-style error.
pub proof fn law_glass_style_change_planned(p: PatchView, now: Seq<char>, v: Seq<char>)
    requires
        p.theme_mode is None,
        p.liquid_glass_style == Some(v),
        p.accent_color is None,
        p.locale is None,
        p.export_dir is None,
        p.max_concurrent_downloads is None,
        p.download_notifications_enabled is None,
        p.douyin_cookie is None,
        p.tiktok_cookie is None,
        p.auto_check_updates is None,
    ensures
        (trim_spec(v) == "transparent"@ || trim_spec(v) == "tinted"@)
            ==> settings_update_spec(p, now) == (seq![(SettingKey::LiquidGlassStyle, trim_spec(v))], None::<(ErrorKind, Seq<char>)>),
        !(trim_spec(v) == "transparent"@ || trim_spec(v) == "tinted"@)
            ==> settings_update_spec(p, now) == (Seq::<(SettingKey, Seq<char>)>::empty(),
                Some(validation_error("liquidGlassStyle must be one of transparent/tinted"@))),
{
}

/// A stored glass style that is accepted reads back as stored; `tinted`
/// stays `tinted`.
pub proof fn law_stored_glass_style_read_back(get: spec_fn(SettingKey) -> Option<Seq<char>>, default_dir: Seq<char>, v: Seq<char>)
    requires
        get(SettingKey::LiquidGlassStyle) == Some(v),
        trim_spec(v) == "transparent"@ || trim_spec(v) == "tinted"@,
    ensures
        settings_spec(get, default_dir).liquid_glass_style == v,
{
}

} // verus!
