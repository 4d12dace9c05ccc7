//! What the user-interface commands decide before they act: window titles,
//! labels and routes, request limits, required ids, external links and
//! front-end error lines.

use vstd::prelude::*;
use crate::text::{
    chars_of, extend_str, extend_chars, string_from_chars, trim_chars, trim_str, trim_spec,
    chars_start_with, starts_with_spec,
};
use crate::error::{AppError, ErrorKind, validation, validation_error};

verus! {

/// A title, trimmed, or `fallback` when blank.
pub open spec fn window_title_spec(value: Seq<char>, fallback: Seq<char>) -> Seq<char> {
    if trim_spec(value).len() == 0 {
        fallback
    } else {
        trim_spec(value)
    }
}

/// A window title: the given one trimmed, or `fallback` when it is blank.
pub fn normalize_window_title(value: &str, fallback: &str) -> (r: String)
    ensures
        r@ == window_title_spec(value@, fallback@),
{
    let t = trim_str(value);
    if t.as_str().is_empty() {
        fallback.to_owned()
    } else {
        t
    }
}

/// The window to open or focus: its label, title, in-app route and page.
#[derive(Debug)]
pub struct WindowTarget {
    pub label: String,
    pub title: String,
    pub route: String,
    pub url: String,
}

/// The kinds of detail window.
#[derive(Clone, Copy, PartialEq, Eq, Structural, Debug)]
pub enum DetailWindow {
    BatchDetail,
    TaskDetail,
    RecordingAccountCreate,
    RecordingAccountEdit,
    RecordingAccountLogs,
}

/// The label of a window kind, before any id.
pub open spec fn window_label_base(w: DetailWindow) -> Seq<char> {
    match w {
        DetailWindow::BatchDetail => "task-batch-detail"@,
        DetailWindow::TaskDetail => "task-detail"@,
        DetailWindow::RecordingAccountCreate => "record-account-create"@,
        DetailWindow::RecordingAccountEdit => "record-account-edit"@,
        DetailWindow::RecordingAccountLogs => "record-account-logs"@,
    }
}

/// The title a window kind shows when none is given.
pub open spec fn window_fallback_title(w: DetailWindow) -> Seq<char> {
    match w {
        DetailWindow::BatchDetail => "Batch Detail"@,
        DetailWindow::TaskDetail => "Task Detail"@,
        DetailWindow::RecordingAccountCreate => "Add Recording Account"@,
        DetailWindow::RecordingAccountEdit => "Edit Recording Account"@,
        DetailWindow::RecordingAccountLogs => "Recording Account Logs"@,
    }
}

/// The message when a window kind that needs an id gets a blank one.
pub open spec fn window_id_message(w: DetailWindow) -> Seq<char> {
    match w {
        DetailWindow::BatchDetail => "batch_id is required"@,
        DetailWindow::TaskDetail => "task_id is required"@,
        _ => "account_id is required"@,
    }
}

/// The in-app route of a window for the (trimmed) id `id`.
pub open spec fn window_route(w: DetailWindow, id: Seq<char>) -> Seq<char> {
    match w {
        DetailWindow::BatchDetail => "#/tasks/batch/"@ + id,
        DetailWindow::TaskDetail => "#/tasks/detail/"@ + id,
        DetailWindow::RecordingAccountCreate => "#/record/account/create"@,
        DetailWindow::RecordingAccountEdit => "#/record/account/"@ + id + "/edit"@,
        DetailWindow::RecordingAccountLogs => "#/record/account/"@ + id + "/logs"@,
    }
}

/// The label of a window for the (trimmed) id `id`: edit and log windows are
/// one per account.
pub open spec fn window_label(w: DetailWindow, id: Seq<char>) -> Seq<char> {
    match w {
        DetailWindow::RecordingAccountEdit | DetailWindow::RecordingAccountLogs => window_label_base(w)
            + "-"@ + id,
        _ => window_label_base(w),
    }
}

/// The window to open: every kind but account creation needs a non-blank id.
pub fn window_target(w: DetailWindow, id: &str, title: &str) -> (r: Result<WindowTarget, AppError>)
    ensures
        r is Err <==> w != DetailWindow::RecordingAccountCreate && trim_spec(id@).len() == 0,
        r matches Err(e) ==> e@ == validation_error(window_id_message(w)),
        r matches Ok(t) ==> {
            &&& t.label@ == window_label(w, trim_spec(id@))
            &&& t.title@ == window_title_spec(title@, window_fallback_title(w))
            &&& t.route@ == window_route(w, trim_spec(id@))
            &&& t.url@ == "index.html"@ + window_route(w, trim_spec(id@))
        },
{
    let idv = trim_chars(&chars_of(id));
    let (base, fallback, message) = match w {
        DetailWindow::BatchDetail => ("task-batch-detail", "Batch Detail", "batch_id is required"),
        DetailWindow::TaskDetail => ("task-detail", "Task Detail", "task_id is required"),
        DetailWindow::RecordingAccountCreate => ("record-account-create", "Add Recording Account", "account_id is required"),
        DetailWindow::RecordingAccountEdit => ("record-account-edit", "Edit Recording Account", "account_id is required"),
        DetailWindow::RecordingAccountLogs => ("record-account-logs", "Recording Account Logs", "account_id is required"),
    };
    if w != DetailWindow::RecordingAccountCreate && idv.len() == 0 {
        return Err(validation(message));
    }
    let mut route: Vec<char> = Vec::new();
    match w {
        DetailWindow::BatchDetail => {
            extend_str(&mut route, "#/tasks/batch/");
            extend_chars(&mut route, &idv);
        },
        DetailWindow::TaskDetail => {
            extend_str(&mut route, "#/tasks/detail/");
            extend_chars(&mut route, &idv);
        },
        DetailWindow::RecordingAccountCreate => {
            extend_str(&mut route, "#/record/account/create");
        },
        DetailWindow::RecordingAccountEdit => {
            extend_str(&mut route, "#/record/account/");
            extend_chars(&mut route, &idv);
            extend_str(&mut route, "/edit");
        },
        DetailWindow::RecordingAccountLogs => {
            extend_str(&mut route, "#/record/account/");
            extend_chars(&mut route, &idv);
            extend_str(&mut route, "/logs");
        },
    }
    let mut label = chars_of(base);
    if w == DetailWindow::RecordingAccountEdit || w == DetailWindow::RecordingAccountLogs {
        extend_str(&mut label, "-");
        extend_chars(&mut label, &idv);
    }
    let mut url = chars_of("index.html");
    extend_chars(&mut url, &route);
    Ok(WindowTarget {
        label: string_from_chars(&label),
        title: normalize_window_title(title, fallback),
        route: string_from_chars(&route),
        url: string_from_chars(&url),
    })
}

/// The script that brings an open window to `route`, unless it shows it
/// already.
pub open spec fn focus_script_spec(quoted_route: Seq<char>) -> Seq<char> {
    "if (window.location.hash !== "@ + quoted_route + ") { window.location.hash = "@ + quoted_route
        + "; }"@
}

/// The script that brings an open window to `route`; the route is written
/// as a JSON string literal.
pub fn window_focus_script(route: &str) -> (r: Result<String, AppError>)
    ensures
        r is Ok,
        r matches Ok(s) ==> s@ == focus_script_spec(crate::external::json_literal_spec(route@)),
        r matches Err(e) ==> e@.0 == ErrorKind::Json,
{
    match crate::external::json_quote(route) {
        Ok(q) => {
            let mut v = chars_of("if (window.location.hash !== ");
            extend_str(&mut v, q.as_str());
            extend_str(&mut v, ") { window.location.hash = ");
            extend_str(&mut v, q.as_str());
            extend_str(&mut v, "; }");
            Ok(string_from_chars(&v))
        },
        Err(m) => Err(AppError::Json(m)),
    }
}

/// The greeting of the helper's ping answer: its `message` text, else `pong`.
pub fn ping_message(answer_json: &str) -> (r: String)
    ensures
        r@ == match crate::external::json_text_field(answer_json@, "message"@) {
            Some(m) => m,
            None => "pong"@,
        },
{
    match crate::external::json_string_field(answer_json, "message") {
        Some(m) => m,
        None => "pong".to_owned(),
    }
}

/// `value`, or `default` when absent, kept within `lo` and `hi`.
pub open spec fn clamp_spec(value: Option<u32>, default: u32, lo: u32, hi: u32) -> u32 {
    let v = match value {
        Some(x) => x,
        None => default,
    };
    if v < lo {
        lo
    } else if v > hi {
        hi
    } else {
        v
    }
}

/// `value`, or `default` when absent, kept within `lo` and `hi`.
pub fn clamp_or_default(value: Option<u32>, default: u32, lo: u32, hi: u32) -> (r: u32)
    requires
        lo <= hi,
    ensures
        r == clamp_spec(value, default, lo, hi),
        lo <= r <= hi,
{
    let v = match value {
        Some(x) => x,
        None => default,
    };
    if v < lo {
        lo
    } else if v > hi {
        hi
    } else {
        v
    }
}

/// An id trimmed, or the error `message` when blank.
pub fn required_id(value: &str, message: &str) -> (r: Result<String, AppError>)
    ensures
        r is Ok <==> trim_spec(value@).len() > 0,
        r matches Ok(s) ==> s@ == trim_spec(value@),
        r matches Err(e) ==> e@ == validation_error(message@),
{
    let t = trim_str(value);
    if t.as_str().is_empty() {
        Err(validation(message))
    } else {
        Ok(t)
    }
}

/// An external link, trimmed, must start with `https://` or `http://`.
pub fn validate_external_url(url: &str) -> (r: Result<String, AppError>)
    ensures
        r is Ok <==> starts_with_spec(trim_spec(url@), "https://"@) || starts_with_spec(
            trim_spec(url@),
            "http://"@,
        ),
        r matches Ok(s) ==> s@ == trim_spec(url@),
        r matches Err(e) ==> e@ == validation_error("url must start with http:// or https://"@),
{
    let t = trim_chars(&chars_of(url));
    if chars_start_with(&t, "https://") || chars_start_with(&t, "http://") {
        Ok(string_from_chars(&t))
    } else {
        Err(validation("url must start with http:// or https://"))
    }
}

/// How an AppleScript `open location` literal writes one character of a
/// link: backslash and double quote get a backslash.
pub open spec fn location_char(c: char) -> Seq<char> {
    if c == '\\' {
        seq!['\\', '\\']
    } else if c == '"' {
        seq!['\\', '"']
    } else {
        seq![c]
    }
}

/// The AppleScript that opens `url`: `open location "..."` with the link
/// escaped as `location_char` says.
pub fn open_location_script(url: &str) -> (r: String)
    ensures
        r@ == "open location \""@ + crate::notify::escape_spec(url@, |c: char| location_char(c)) + "\""@,
{
    let v = chars_of(url);
    let mut out = chars_of("open location \"");
    let ghost start = out@;
    let mut i: usize = 0;
    while i < v.len()
        invariant
            i <= v@.len(),
            out@ == start + crate::notify::escape_spec(v@.take(i as int), |c: char| location_char(c)),
        decreases v.len() - i,
    {
        let c = v[i];
        assert(v@.take(i + 1).drop_last() =~= v@.take(i as int));
        if c == '\\' {
            out.push('\\');
            out.push('\\');
        } else if c == '"' {
            out.push('\\');
            out.push('"');
        } else {
            out.push(c);
        }
        i += 1;
        assert(out@ =~= start + crate::notify::escape_spec(v@.take(i as int), |c: char| location_char(c)));
    }
    assert(v@.take(v.len() as int) =~= v@);
    extend_str(&mut out, "\"");
    string_from_chars(&out)
}

/// A line break becomes a space.
pub open spec fn flatten_char(c: char) -> char {
    if c == '\n' || c == '\r' {
        ' '
    } else {
        c
    }
}

/// The log line for a front-end error: scope trimmed, message with line
/// breaks turned into spaces and trimmed; nothing when either is blank.
pub open spec fn frontend_log_spec(scope: Seq<char>, message: Seq<char>) -> Option<Seq<char>> {
    let s = trim_spec(scope);
    let m = trim_spec(message.map_values(|c: char| flatten_char(c)));
    if s.len() == 0 || m.len() == 0 {
        None
    } else {
        Some("frontend error scope="@ + s + " message="@ + m)
    }
}

/// The runtime-log line for a front-end error, if it is worth logging.
pub fn frontend_log_line(scope: &str, message: &str) -> (r: Option<String>)
    ensures
        crate::text::opt_view(r) == frontend_log_spec(scope@, message@),
{
    let s = trim_chars(&chars_of(scope));
    let mv = chars_of(message);
    let mut flat: Vec<char> = Vec::new();
    let mut i: usize = 0;
    while i < mv.len()
        invariant
            i <= mv.len(),
            flat@ == mv@.take(i as int).map_values(|c: char| flatten_char(c)),
        decreases mv.len() - i,
    {
        let c = mv[i];
        flat.push(if c == '\n' || c == '\r' {
            ' '
        } else {
            c
        });
        i += 1;
        assert(flat@ =~= mv@.take(i as int).map_values(|c: char| flatten_char(c)));
    }
    assert(mv@.take(mv.len() as int) =~= mv@);
    let m = trim_chars(&flat);
    if s.len() == 0 || m.len() == 0 {
        return None;
    }
    let mut line = chars_of("frontend error scope=");
    extend_chars(&mut line, &s);
    extend_str(&mut line, " message=");
    extend_chars(&mut line, &m);
    Some(string_from_chars(&line))
}

} // verus!
