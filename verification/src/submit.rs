//! Validation of download requests: supported platforms, supported links,
//! and the split of submitted links into accepted, invalid and skipped ones.

use vstd::prelude::*;
use crate::text::{
    chars_of, string_from_chars, trim_chars, trim_str, trim_spec, str_eq, chars_eq,
    ascii_lower_chars, ascii_lower_seq, chars_start_with, starts_with_spec,
};
use crate::error::{AppError, validation, validation_error};

verus! {

/// `douyin` and `tiktok` are the supported platforms (after trimming).
pub open spec fn is_supported_platform(s: Seq<char>) -> bool {
    trim_spec(s) == "douyin"@ || trim_spec(s) == "tiktok"@
}

/// Whether `value` names a supported platform.
pub fn is_supported_platform_text(value: &str) -> (r: bool)
    ensures
        r == is_supported_platform(value@),
{
    let t = trim_str(value);
    str_eq(t.as_str(), "douyin") || str_eq(t.as_str(), "tiktok")
}

/// The message of the error for an unsupported platform.
pub open spec fn platform_error_message() -> Seq<char> {
    "platform must be one of douyin/tiktok"@
}

/// Accepts `douyin` and `tiktok`, trimmed; rejects every other platform.
pub fn validate_download_platform(value: &str) -> (r: Result<(), AppError>)
    ensures
        r is Ok <==> is_supported_platform(value@),
        r matches Err(e) ==> e@ == validation_error(platform_error_message()),
{
    if is_supported_platform_text(value) {
        Ok(())
    } else {
        Err(validation("platform must be one of douyin/tiktok"))
    }
}

/// A link is supported when, trimmed and ASCII-lower-cased, it starts with
/// `http://` or `https://`.
pub open spec fn is_supported_url(s: Seq<char>) -> bool {
    let l = ascii_lower_seq(trim_spec(s));
    starts_with_spec(l, "http://"@) || starts_with_spec(l, "https://"@)
}

/// Whether `value` is a supported download link.
pub fn is_supported_download_url(value: &str) -> (r: bool)
    ensures
        r == is_supported_url(value@),
{
    let v = chars_of(value);
    let t = trim_chars(&v);
    let l = ascii_lower_chars(&t);
    chars_start_with(&l, "http://") || chars_start_with(&l, "https://")
}

/// The split of submitted links: accepted links (trimmed, supported, first
/// occurrences only), invalid links (trimmed, unsupported) and the number
/// skipped (blank, or repeating an accepted link).
pub open spec fn classify_spec(urls: Seq<Seq<char>>) -> (Seq<Seq<char>>, Seq<Seq<char>>, nat)
    decreases urls.len(),
{
    if urls.len() == 0 {
        (seq![], seq![], 0)
    } else {
        let (accepted, invalid, skipped) = classify_spec(urls.drop_last());
        let n = trim_spec(urls.last());
        if n.len() == 0 {
            (accepted, invalid, skipped + 1)
        } else if !is_supported_url(n) {
            (accepted, invalid.push(n), skipped)
        } else if accepted.contains(n) {
            (accepted, invalid, skipped + 1)
        } else {
            (accepted.push(n), invalid, skipped)
        }
    }
}

/// The views of a list of strings.
pub open spec fn views(v: Seq<String>) -> Seq<Seq<char>> {
    v.map_values(|s: String| s@)
}

/// Submitted links, split.
#[derive(Debug)]
pub struct UrlClassification {
    pub accepted: Vec<String>,
    pub invalid: Vec<String>,
    pub skipped: u32,
}

pub fn contains_text(v: &Vec<String>, s: &Vec<char>) -> (r: bool)
    ensures
        r == views(v@).contains(s@),
{
    let mut i: usize = 0;
    while i < v.len()
        invariant
            i <= v.len(),
            forall|k: int| 0 <= k < i ==> v@[k]@ != s@,
        decreases v.len() - i,
    {
        let c = chars_of(v[i].as_str());
        if chars_eq(&c, s) {
            assert(views(v@)[i as int] == s@);
            return true;
        }
        i += 1;
    }
    proof {
        if views(v@).contains(s@) {
            let k = choose|k: int| 0 <= k < views(v@).len() && views(v@)[k] == s@;
            assert(v@[k]@ == s@);
        }
    }
    false
}

/// Splits submitted links into accepted, invalid and skipped ones.
pub fn classify_urls(urls: &Vec<String>) -> (c: UrlClassification)
    requires
        urls.len() <= u32::MAX,
    ensures
        (views(c.accepted@), views(c.invalid@), c.skipped as nat) == classify_spec(views(urls@)),
{
    let mut accepted: Vec<String> = Vec::new();
    let mut invalid: Vec<String> = Vec::new();
    let mut skipped: u32 = 0;
    let mut i: usize = 0;
    while i < urls.len()
        invariant
            i <= urls.len() <= u32::MAX,
            skipped <= i,
            (views(accepted@), views(invalid@), skipped as nat) == classify_spec(
                views(urls@.take(i as int)),
            ),
        decreases urls.len() - i,
    {
        let ghost before = views(urls@.take(i as int));
        let ghost after = views(urls@.take(i + 1));
        assert(after.drop_last() =~= before);
        assert(after.last() == urls@[i as int]@);
        let raw = chars_of(urls[i].as_str());
        let n = trim_chars(&raw);
        if n.len() == 0 {
            skipped += 1;
        } else {
            let ns = string_from_chars(&n);
            if !is_supported_download_url(ns.as_str()) {
                invalid.push(ns);
                assert(views(invalid@) =~= classify_spec(before).1.push(n@));
            } else {
                if contains_text(&accepted, &n) {
                    skipped += 1;
                } else {
                    accepted.push(ns);
                    assert(views(accepted@) =~= classify_spec(before).0.push(n@));
                }
            }
        }
        i += 1;
    }
    assert(urls@.take(urls.len() as int) =~= urls@);
    UrlClassification { accepted, invalid, skipped }
}


/// Every submitted link is accounted for exactly once: accepted, invalid or
/// skipped. Accepted links are distinct and supported, invalid ones are not
/// supported, and neither holds a blank link.
pub proof fn law_classification_accounts_for_every_link(urls: Seq<Seq<char>>)
    ensures
        ({
            let (accepted, invalid, skipped) = classify_spec(urls);
            &&& accepted.len() + invalid.len() + skipped == urls.len()
            &&& accepted.no_duplicates()
            &&& forall|i: int|
                0 <= i < accepted.len() ==> is_supported_url(#[trigger] accepted[i])
                    && accepted[i].len() > 0
            &&& forall|i: int|
                0 <= i < invalid.len() ==> !is_supported_url(#[trigger] invalid[i])
                    && invalid[i].len() > 0
        }),
    decreases urls.len(),
{
    if urls.len() > 0 {
        law_classification_accounts_for_every_link(urls.drop_last());
        let (accepted, invalid, skipped) = classify_spec(urls.drop_last());
        let n = trim_spec(urls.last());
        if n.len() > 0 && is_supported_url(n) && !accepted.contains(n) {
            let a2 = accepted.push(n);
            assert forall|i: int, j: int| 0 <= i < j < a2.len() implies a2[i] != a2[j] by {
                if j == a2.len() - 1 {
                    assert(accepted[i] == a2[i]);
                }
            }
        }
    }
}

} // verus!
