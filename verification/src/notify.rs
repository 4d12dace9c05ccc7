//! The desktop notice for a finished download batch, and the escaping its
//! text needs for AppleScript and for toast XML.

use vstd::prelude::*;
use crate::text::{chars_of, extend_str, string_from_chars, str_eq};
use crate::number::{push_decimal, decimal_spec};
use crate::models::DownloadBatchCompletion;

verus! {

/// The display name of a platform: 抖音 for douyin, TikTok for tiktok, the
/// name itself otherwise.
pub open spec fn platform_label_spec(platform: Seq<char>) -> Seq<char> {
    if platform == "douyin"@ {
        "抖音"@
    } else if platform == "tiktok"@ {
        "TikTok"@
    } else {
        platform
    }
}

/// The display name of a platform.
pub fn platform_label(platform: &str) -> (r: String)
    ensures
        r@ == platform_label_spec(platform@),
{
    if str_eq(platform, "douyin") {
        "抖音".to_owned()
    } else if str_eq(platform, "tiktok") {
        "TikTok".to_owned()
    } else {
        platform.to_owned()
    }
}

/// A desktop notice.
#[derive(Debug)]
pub struct Notice {
    pub title: String,
    pub body: String,
}

/// The notice for a finished batch: all failed, all succeeded, or a mix.
pub open spec fn batch_notice_spec(platform: Seq<char>, total: nat, success: nat, failed: nat) -> (Seq<char>, Seq<char>) {
    let label = platform_label_spec(platform);
    if success == 0 {
        ("批次下载失败"@, label + " · 全部失败，共 "@ + decimal_spec(failed) + " 条"@)
    } else if failed == 0 {
        ("批次下载完成"@, label + " · 全部成功，共 "@ + decimal_spec(success) + " 条"@)
    } else {
        (
            "批次下载完成"@,
            label + " · 成功 "@ + decimal_spec(success) + " 条，失败 "@ + decimal_spec(failed)
                + " 条，共 "@ + decimal_spec(total) + " 条"@,
        )
    }
}

/// The notice announcing that a download batch finished.
pub fn notify_download_batch_completed(summary: &DownloadBatchCompletion) -> (n: Notice)
    ensures
        (n.title@, n.body@) == batch_notice_spec(
            summary.platform@,
            summary.total_count as nat,
            summary.success_count as nat,
            summary.failed_count as nat,
        ),
        summary.platform@ == "douyin"@ ==> crate::text::starts_with_spec(n.body@, "抖音"@),
        summary.platform@ == "tiktok"@ ==> crate::text::starts_with_spec(n.body@, "TikTok"@),
        summary.platform@ != "douyin"@ && summary.platform@ != "tiktok"@ ==> crate::text::starts_with_spec(n.body@, summary.platform@),
{
    proof {
        law_notice_names_the_platform(summary.platform@, summary.total_count as nat, summary.success_count as nat,
            summary.failed_count as nat);
    }
    let label = platform_label(summary.platform.as_str());
    let mut body = chars_of(label.as_str());
    if summary.success_count == 0 {
        extend_str(&mut body, " · 全部失败，共 ");
        push_decimal(&mut body, summary.failed_count as u64);
        extend_str(&mut body, " 条");
        Notice { title: "批次下载失败".to_owned(), body: string_from_chars(&body) }
    } else if summary.failed_count == 0 {
        extend_str(&mut body, " · 全部成功，共 ");
        push_decimal(&mut body, summary.success_count as u64);
        extend_str(&mut body, " 条");
        Notice { title: "批次下载完成".to_owned(), body: string_from_chars(&body) }
    } else {
        extend_str(&mut body, " · 成功 ");
        push_decimal(&mut body, summary.success_count as u64);
        extend_str(&mut body, " 条，失败 ");
        push_decimal(&mut body, summary.failed_count as u64);
        extend_str(&mut body, " 条，共 ");
        push_decimal(&mut body, summary.total_count as u64);
        extend_str(&mut body, " 条");
        Notice { title: "批次下载完成".to_owned(), body: string_from_chars(&body) }
    }
}

/// `s` with each character replaced by `f` of it.
pub open spec fn escape_spec(s: Seq<char>, f: spec_fn(char) -> Seq<char>) -> Seq<char>
    decreases s.len(),
{
    if s.len() == 0 {
        seq![]
    } else {
        escape_spec(s.drop_last(), f) + f(s.last())
    }
}

/// AppleScript escaping of one character: backslash and double quote get a
/// backslash, line breaks become spaces.
pub open spec fn apple_script_char(c: char) -> Seq<char> {
    if c == '\\' {
        seq!['\\', '\\']
    } else if c == '"' {
        seq!['\\', '"']
    } else if c == '\n' || c == '\r' {
        seq![' ']
    } else {
        seq![c]
    }
}

/// An AppleScript string literal holding `value`.
pub fn apple_script_string(value: &str) -> (r: String)
    ensures
        r@ == seq!['"'] + escape_spec(value@, |c: char| apple_script_char(c)) + seq!['"'],
{
    let v = chars_of(value);
    let mut out: Vec<char> = Vec::new();
    out.push('"');
    let mut i: usize = 0;
    while i < v.len()
        invariant
            i <= v.len(),
            out@ == seq!['"'] + escape_spec(v@.take(i as int), |c: char| apple_script_char(c)),
        decreases v.len() - i,
    {
        let c = v[i];
        if c == '\\' {
            out.push('\\');
            out.push('\\');
        } else if c == '"' {
            out.push('\\');
            out.push('"');
        } else if c == '\n' || c == '\r' {
            out.push(' ');
        } else {
            out.push(c);
        }
        assert(v@.take(i + 1).drop_last() =~= v@.take(i as int));
        i += 1;
        assert(out@ =~= seq!['"'] + escape_spec(v@.take(i as int), |c: char| apple_script_char(c)));
    }
    assert(v@.take(v.len() as int) =~= v@);
    out.push('"');
    string_from_chars(&out)
}

/// XML escaping of one character: `&`, `<` and `>` become entities.
pub open spec fn xml_char(c: char) -> Seq<char> {
    if c == '&' {
        "&amp;"@
    } else if c == '<' {
        "&lt;"@
    } else if c == '>' {
        "&gt;"@
    } else {
        seq![c]
    }
}

/// `value` with `&`, `<` and `>` escaped for XML text.
pub fn xml_escape(value: &str) -> (r: String)
    ensures
        r@ == escape_spec(value@, |c: char| xml_char(c)),
{
    let v = chars_of(value);
    let mut out: Vec<char> = Vec::new();
    let mut i: usize = 0;
    while i < v.len()
        invariant
            i <= v.len(),
            out@ == escape_spec(v@.take(i as int), |c: char| xml_char(c)),
        decreases v.len() - i,
    {
        let c = v[i];
        if c == '&' {
            extend_str(&mut out, "&amp;");
        } else if c == '<' {
            extend_str(&mut out, "&lt;");
        } else if c == '>' {
            extend_str(&mut out, "&gt;");
        } else {
            out.push(c);
        }
        assert(v@.take(i + 1).drop_last() =~= v@.take(i as int));
        i += 1;
        assert(out@ =~= escape_spec(v@.take(i as int), |c: char| xml_char(c)));
    }
    assert(v@.take(v.len() as int) =~= v@);
    string_from_chars(&out)
}


/// A batch notice's body begins with the platform's display name: 抖音 for
/// douyin, TikTok for tiktok, the platform itself otherwise.
pub proof fn law_notice_names_the_platform(platform: Seq<char>, total: nat, success: nat, failed: nat)
    ensures
        platform == "douyin"@ ==> crate::text::starts_with_spec(batch_notice_spec(platform, total, success, failed).1, "抖音"@),
        platform == "tiktok"@ ==> crate::text::starts_with_spec(batch_notice_spec(platform, total, success, failed).1, "TikTok"@),
        platform != "douyin"@ && platform != "tiktok"@
            ==> crate::text::starts_with_spec(batch_notice_spec(platform, total, success, failed).1, platform),
{
    reveal_strlit("douyin");
    reveal_strlit("tiktok");
    assert("tiktok"@[0] != "douyin"@[0]);
    assert("tiktok"@ != "douyin"@);
    let body = batch_notice_spec(platform, total, success, failed).1;
    let label = platform_label_spec(platform);
    assert(body.take(label.len() as int) =~= label);
}


/// A batch notice's title says whether anything succeeded: 批次下载失败 when
/// every task failed (no success), 批次下载完成 otherwise.
pub proof fn law_notice_title_tells_the_outcome(platform: Seq<char>, total: nat, success: nat, failed: nat)
    ensures
        success == 0 ==> batch_notice_spec(platform, total, success, failed).0 == "批次下载失败"@,
        success > 0 ==> batch_notice_spec(platform, total, success, failed).0 == "批次下载完成"@,
{
}

} // verus!
