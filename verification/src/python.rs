//! The request/response protocol with the Python helper: matching a response
//! to its request, and reading a response from the helper's output lines.

use vstd::prelude::*;
use crate::text::{opt_view, chars_of, extend_str, string_from_chars, trim_chars};
use crate::error::{AppError, ErrorKind, task_exec};

verus! {

/// A response answers request `request_id` when it carries the same id;
/// then its error, if any, is the failure.
pub fn check_python_response(request_id: u64, response_id: u64, error: Option<String>) -> (r: Result<(), AppError>)
    ensures
        response_id != request_id ==> (r matches Err(e) && e@ == (ErrorKind::TaskExec, "python response id mismatch"@)),
        response_id == request_id ==> match opt_view(error) {
            Some(m) => (r matches Err(e) && e@ == (ErrorKind::TaskExec, m)),
            None => r is Ok,
        },
{
    if response_id != request_id {
        return Err(task_exec("python response id mismatch"));
    }
    match error {
        Some(m) => Err(AppError::TaskExec(m)),
        None => Ok(()),
    }
}

/// The id after `id` (it stops at the largest id).
pub fn next_request_id(id: u64) -> (r: u64)
    ensures
        r == if id < u64::MAX {
            id + 1
        } else {
            id as int
        },
{
    if id < u64::MAX {
        id + 1
    } else {
        id
    }
}

/// `parts` joined with ` | `.
pub open spec fn join_bar(parts: Seq<Seq<char>>) -> Seq<char>
    decreases parts.len(),
{
    if parts.len() == 0 {
        seq![]
    } else if parts.len() == 1 {
        parts[0]
    } else {
        join_bar(parts.drop_last()) + " | "@ + parts.last()
    }
}

fn join_lines(parts: &Vec<String>) -> (r: Vec<char>)
    ensures
        r@ == join_bar(crate::submit::views(parts@)),
{
    let mut out: Vec<char> = Vec::new();
    let mut i: usize = 0;
    while i < parts.len()
        invariant
            i <= parts.len(),
            out@ == join_bar(crate::submit::views(parts@.take(i as int))),
        decreases parts.len() - i,
    {
        let ghost before = crate::submit::views(parts@.take(i as int));
        let ghost after = crate::submit::views(parts@.take(i + 1));
        assert(after.drop_last() =~= before);
        if i > 0 {
            extend_str(&mut out, " | ");
        }
        extend_str(&mut out, parts[i].as_str());
        i += 1;
        assert(out@ =~= join_bar(after));
    }
    assert(parts@.take(parts.len() as int) =~= parts@);
    out
}

/// What to do with one output line of the helper.
#[derive(Debug)]
pub enum LineOutcome {
    /// A blank line, or a stray line while fewer than three were seen.
    Skip,
    /// The line is the response.
    Response,
    /// Too many stray lines: give up with this error.
    Fail(AppError),
}

/// The output lines of the helper that were not a response.
#[derive(Debug)]
pub struct ResponseScan {
    pub ignored: Vec<String>,
}

impl ResponseScan {
    /// No line read yet.
    pub fn new() -> (s: ResponseScan)
        ensures
            s.ignored@.len() == 0,
    {
        ResponseScan { ignored: Vec::new() }
    }

    /// Takes one output line, given whether its trimmed text parsed as a
    /// response. Blank lines are skipped, a parsed line is the response, and
    /// the third stray line ends the read.
    pub fn on_line(&mut self, line: &str, parsed: bool, process_name: &str) -> (r: LineOutcome)
        ensures
            crate::text::trim_spec(line@).len() == 0 ==> r is Skip && final(self).ignored@ == old(self).ignored@,
            crate::text::trim_spec(line@).len() > 0 && parsed ==> r is Response && final(self).ignored@ == old(self).ignored@,
            crate::text::trim_spec(line@).len() > 0 && !parsed ==> {
                &&& crate::submit::views(final(self).ignored@) == crate::submit::views(old(self).ignored@).push(crate::text::trim_spec(line@))
                &&& (final(self).ignored@.len() >= 3 <==> r is Fail)
                &&& r matches LineOutcome::Fail(e) ==> e@ == (ErrorKind::TaskExec, process_name@ + " returned non-JSON stdout: "@ + join_bar(crate::submit::views(final(self).ignored@)))
                &&& final(self).ignored@.len() < 3 ==> r is Skip
            },
    {
        let t = trim_chars(&chars_of(line));
        if t.len() == 0 {
            return LineOutcome::Skip;
        }
        if parsed {
            return LineOutcome::Response;
        }
        let ghost before = crate::submit::views(self.ignored@);
        self.ignored.push(string_from_chars(&t));
        assert(crate::submit::views(self.ignored@) =~= before.push(t@));
        if self.ignored.len() >= 3 {
            let mut m = chars_of(process_name);
            extend_str(&mut m, " returned non-JSON stdout: ");
            let j = join_lines(&self.ignored);
            crate::text::extend_chars(&mut m, &j);
            return LineOutcome::Fail(AppError::TaskExec(string_from_chars(&m)));
        }
        LineOutcome::Skip
    }

    /// The error when the helper's output ends without a response.
    pub fn on_closed(&self, process_name: &str) -> (e: AppError)
        ensures
            self.ignored@.len() == 0 ==> e@ == (ErrorKind::TaskExec, process_name@ + " closed unexpectedly"@),
            self.ignored@.len() > 0 ==> e@ == (ErrorKind::TaskExec, process_name@ + " returned no valid JSON response; ignored stdout: "@ + join_bar(crate::submit::views(self.ignored@))),
    {
        let mut m = chars_of(process_name);
        if self.ignored.len() == 0 {
            extend_str(&mut m, " closed unexpectedly");
        } else {
            extend_str(&mut m, " returned no valid JSON response; ignored stdout: ");
            let j = join_lines(&self.ignored);
            crate::text::extend_chars(&mut m, &j);
        }
        AppError::TaskExec(string_from_chars(&m))
    }
}

} // verus!
