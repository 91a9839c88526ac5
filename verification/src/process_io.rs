//! What a finished `git`, `gh` or `codex exec` run hands back, and how
//! process mode reads it: output text, failure details and the errors it
//! reports.

use crate::gh_retry::failure_details;
use crate::guardrails::{
    clean_worktree_error, format_clean_worktree_guardrail_error, parse_git_status_porcelain_entries,
    porcelain_entries,
};
use crate::text::{chars_of, join, join_strings, str_views, string_of, trim_vec, trim_ws};
use vstd::prelude::*;
use vstd::utf8::{decode_utf8, valid_utf8};

verus! {

/// A subprocess that ran to its end.
#[derive(Debug, Clone, PartialEq, Eq)]
pub struct ProcessOutput {
    /// The exit code; `None` when a signal ended the process.
    pub exit_code: Option<i32>,
    /// Whether the process reported success.
    pub success: bool,
    /// The exit status as the platform prints it.
    pub status: String,
    pub stdout: Vec<u8>,
    pub stderr: Vec<u8>,
}

/// A subprocess that could not be started.
#[derive(Debug, Clone, PartialEq, Eq)]
pub struct LaunchFailure {
    /// The program was not found.
    pub not_found: bool,
    /// The operating system's description of the failure.
    pub message: String,
}

/// What `String::from_utf8_lossy` makes of a byte sequence: its UTF-8
/// decoding, with each invalid sequence replaced by U+FFFD.
pub uninterp spec fn utf8_lossy(bytes: Seq<u8>) -> Seq<char>;

/// `String::from_utf8_lossy` from std. Bytes that are valid UTF-8 come back
/// decoded as they are.
#[verifier::external_body]
pub(crate) fn lossy_text(bytes: &[u8]) -> (r: String)
    ensures
        r@ == utf8_lossy(bytes@),
        valid_utf8(bytes@) ==> r@ == decode_utf8(bytes@),
{
    String::from_utf8_lossy(bytes).into_owned()
}

/// `String::from_utf8` from std: the decoded text when the bytes are valid
/// UTF-8, nothing otherwise.
#[verifier::external_body]
pub(crate) fn strict_text(bytes: Vec<u8>) -> (r: Option<String>)
    ensures
        r is Some <==> valid_utf8(bytes@),
        r matches Some(s) ==> s@ == decode_utf8(bytes@),
{
    String::from_utf8(bytes).ok()
}

/// The trimmed text of output that must be UTF-8.
pub open spec fn strict_trimmed(bytes: Seq<u8>) -> Option<Seq<char>> {
    if valid_utf8(bytes) {
        Some(trim_ws(decode_utf8(bytes)))
    } else {
        None
    }
}

fn trimmed_text(bytes: Vec<u8>) -> (r: Option<String>)
    ensures
        match strict_trimmed(bytes@) {
            Some(t) => r matches Some(s) && s@ == t,
            None => r is None,
        },
{
    match strict_text(bytes) {
        Some(s) => {
            let t = trim_vec(&chars_of(s.as_str()));
            Some(string_of(&t))
        },
        None => None,
    }
}

/// The failure details of a finished run: trimmed stderr, else trimmed
/// stdout, else a placeholder.
pub open spec fn output_details(o: ProcessOutput) -> Seq<char> {
    failure_details(utf8_lossy(o.stderr@), utf8_lossy(o.stdout@))
}

pub fn process_failure_details(o: &ProcessOutput) -> (r: String)
    ensures
        r@ == output_details(*o),
{
    let stderr = lossy_text(o.stderr.as_slice());
    let stdout = lossy_text(o.stdout.as_slice());
    crate::gh_retry::gh_failure_details(stderr.as_str(), stdout.as_str())
}

// ---------------------------------------------------------------------------
// git
// ---------------------------------------------------------------------------

pub open spec fn git_launch_message(f: LaunchFailure) -> Seq<char> {
    if f.not_found {
        "git is not available in PATH."@
    } else {
        "Failed to start `git`: "@ + f.message@
    }
}

fn git_launch_error(f: &LaunchFailure) -> (r: String)
    ensures
        r@ == git_launch_message(*f),
{
    if f.not_found {
        String::from_str("git is not available in PATH.")
    } else {
        let mut r = String::from_str("Failed to start `git`: ");
        r.append(f.message.as_str());
        r
    }
}

pub open spec fn git_failed_message(args: Seq<Seq<char>>, o: ProcessOutput) -> Seq<char> {
    "`git "@ + join(args, " "@) + "` failed with status "@ + o.status@ + ": "@ + output_details(o)
}

pub open spec fn git_non_utf8_message() -> Seq<char> {
    "`git` returned non-UTF8 output"@
}

/// What a `git` run with `args` yields: its trimmed stdout, or the error.
pub open spec fn git_text_result(
    args: Seq<Seq<char>>,
    outcome: Result<ProcessOutput, LaunchFailure>,
) -> Result<Seq<char>, Seq<char>> {
    match outcome {
        Err(f) => Err(git_launch_message(f)),
        Ok(o) => if !o.success {
            Err(git_failed_message(args, o))
        } else {
            match strict_trimmed(o.stdout@) {
                Some(t) => Ok(t),
                None => Err(git_non_utf8_message()),
            }
        },
    }
}

pub open spec fn result_view(r: Result<String, String>) -> Result<Seq<char>, Seq<char>> {
    match r {
        Ok(s) => Ok(s@),
        Err(e) => Err(e@),
    }
}

/// The trimmed stdout of a successful `git` run; a run that could not start,
/// failed or printed something other than UTF-8 is an error.
pub fn run_git_text_command(args: &[String], outcome: Result<ProcessOutput, LaunchFailure>) -> (r:
    Result<String, String>)
    ensures
        result_view(r) == git_text_result(str_views(args@), outcome),
{
    match outcome {
        Err(f) => Err(git_launch_error(&f)),
        Ok(o) => {
            if !o.success {
                let details = process_failure_details(&o);
                let mut m = String::from_str("`git ");
                let joined = join_strings(args, " ");
                m.append(joined.as_str());
                m.append("` failed with status ");
                m.append(o.status.as_str());
                m.append(": ");
                m.append(details.as_str());
                Err(m)
            } else {
                match trimmed_text(o.stdout) {
                    Some(t) => Ok(t),
                    None => Err(String::from_str("`git` returned non-UTF8 output")),
                }
            }
        },
    }
}

/// `git -C <worktree> diff --cached --quiet`.
pub open spec fn staged_changes_args(worktree_dir: Seq<char>) -> Seq<Seq<char>> {
    seq!["-C"@, worktree_dir, "diff"@, "--cached"@, "--quiet"@]
}

pub fn git_staged_changes_args(worktree_dir: &str) -> (r: Vec<String>)
    ensures
        str_views(r@) == staged_changes_args(worktree_dir@),
{
    let r = vec![
        String::from_str("-C"),
        worktree_dir.to_owned(),
        String::from_str("diff"),
        String::from_str("--cached"),
        String::from_str("--quiet"),
    ];
    assert(str_views(r@) =~= staged_changes_args(worktree_dir@));
    r
}

pub open spec fn staged_launch_message(f: LaunchFailure) -> Seq<char> {
    if f.not_found {
        "git is not available in PATH. Install git before running process quick-fix actions."@
    } else {
        "Failed to start `git`: "@ + f.message@
    }
}

/// Trimmed stderr, else trimmed stdout.
pub open spec fn diff_details(o: ProcessOutput) -> Seq<char> {
    if trim_ws(utf8_lossy(o.stderr@)).len() > 0 {
        trim_ws(utf8_lossy(o.stderr@))
    } else {
        trim_ws(utf8_lossy(o.stdout@))
    }
}

pub open spec fn staged_changes(outcome: Result<ProcessOutput, LaunchFailure>) -> Result<
    bool,
    Seq<char>,
> {
    match outcome {
        Err(f) => Err(staged_launch_message(f)),
        Ok(o) => match o.exit_code {
            Some(0i32) => Ok(false),
            Some(1i32) => Ok(true),
            _ => Err("`git diff --cached --quiet` failed: "@ + diff_details(o)),
        },
    }
}

/// Exit code 0 of `git diff --cached --quiet` means nothing is staged, 1
/// means something is; anything else is an error.
pub fn git_has_staged_changes(outcome: Result<ProcessOutput, LaunchFailure>) -> (r: Result<
    bool,
    String,
>)
    ensures
        match staged_changes(outcome) {
            Ok(b) => r == Ok::<bool, String>(b),
            Err(m) => r matches Err(e) && e@ == m,
        },
{
    match outcome {
        Err(f) => {
            if f.not_found {
                Err(
                    String::from_str(
                        "git is not available in PATH. Install git before running process quick-fix actions.",
                    ),
                )
            } else {
                let mut r = String::from_str("Failed to start `git`: ");
                r.append(f.message.as_str());
                Err(r)
            }
        },
        Ok(o) => {
            match o.exit_code {
                Some(0i32) => Ok(false),
                Some(1i32) => Ok(true),
                _ => {
                    let stderr = trim_vec(&chars_of(lossy_text(o.stderr.as_slice()).as_str()));
                    let stdout = trim_vec(&chars_of(lossy_text(o.stdout.as_slice()).as_str()));
                    let mut m = String::from_str("`git diff --cached --quiet` failed: ");
                    if stderr.len() > 0 {
                        crate::text::push_chars(&mut m, &stderr);
                    } else {
                        crate::text::push_chars(&mut m, &stdout);
                    }
                    Err(m)
                },
            }
        },
    }
}

pub open spec fn status_failed_message(o: ProcessOutput) -> Seq<char> {
    "`git status --porcelain` failed with status "@ + o.status@ + ": "@ + output_details(o)
}

/// What the clean-worktree guardrail concludes from `git status
/// --porcelain`.
pub open spec fn clean_worktree_check(outcome: Result<ProcessOutput, LaunchFailure>) -> Result<
    (),
    Seq<char>,
> {
    match outcome {
        Err(f) => Err(git_launch_message(f)),
        Ok(o) => if !o.success {
            Err(status_failed_message(o))
        } else if !valid_utf8(o.stdout@) {
            Err(git_non_utf8_message())
        } else if porcelain_entries(decode_utf8(o.stdout@)).len() == 0 {
            Ok(())
        } else {
            Err(clean_worktree_error(porcelain_entries(decode_utf8(o.stdout@))))
        },
    }
}

/// Mutations need a clean worktree: any entry of `git status --porcelain`
/// refuses them, listing what is dirty.
pub fn ensure_clean_git_worktree_for_mutations(outcome: Result<ProcessOutput, LaunchFailure>) -> (r:
    Result<(), String>)
    ensures
        match clean_worktree_check(outcome) {
            Ok(()) => r is Ok,
            Err(m) => r matches Err(e) && e@ == m,
        },
{
    match outcome {
        Err(f) => Err(git_launch_error(&f)),
        Ok(o) => {
            if !o.success {
                let details = process_failure_details(&o);
                let mut m = String::from_str("`git status --porcelain` failed with status ");
                m.append(o.status.as_str());
                m.append(": ");
                m.append(details.as_str());
                return Err(m);
            }
            match strict_text(o.stdout) {
                None => Err(String::from_str("`git` returned non-UTF8 output")),
                Some(text) => {
                    let entries = parse_git_status_porcelain_entries(text.as_str());
                    if entries.len() == 0 {
                        Ok(())
                    } else {
                        Err(format_clean_worktree_guardrail_error(entries.as_slice()))
                    }
                },
            }
        },
    }
}

// ---------------------------------------------------------------------------
// gh
// ---------------------------------------------------------------------------

pub open spec fn gh_launch_message(f: LaunchFailure) -> Seq<char> {
    if f.not_found {
        "GitHub CLI (`gh`) is not available in PATH. Install from https://cli.github.com/ and run `gh auth login`."@
    } else {
        "Failed to start `gh`: "@ + f.message@
    }
}

pub fn gh_launch_error(f: &LaunchFailure) -> (r: String)
    ensures
        r@ == gh_launch_message(*f),
{
    if f.not_found {
        String::from_str(
            "GitHub CLI (`gh`) is not available in PATH. Install from https://cli.github.com/ and run `gh auth login`.",
        )
    } else {
        let mut r = String::from_str("Failed to start `gh`: ");
        r.append(f.message.as_str());
        r
    }
}

pub open spec fn gh_non_utf8_message() -> Seq<char> {
    "`gh` returned non-UTF8 output"@
}

/// The trimmed stdout of a successful `gh` run, which must be UTF-8.
pub fn run_gh_text_command(stdout: Vec<u8>) -> (r: Result<String, String>)
    ensures
        match strict_trimmed(stdout@) {
            Some(t) => r matches Ok(s) && s@ == t,
            None => r matches Err(e) && e@ == gh_non_utf8_message(),
        },
{
    match trimmed_text(stdout) {
        Some(t) => Ok(t),
        None => Err(String::from_str("`gh` returned non-UTF8 output")),
    }
}

} // verus!
