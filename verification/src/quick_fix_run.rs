//! Running a quick fix: the `codex exec` subprocess and what its end means,
//! and the git steps around it (an isolated worktree on a fresh branch, the
//! commit, the push).
//!
//! The git and subprocess runs themselves are made by the caller: each flow
//! says which run comes next and takes its outcome back.

use crate::guardrails::opt_str_view;
use crate::model::{ProcessCommentTriageItem, ProcessWatchIssueCandidate, QuickFixExecutionResult};
use crate::process_io::{
    git_text_result, result_view, run_git_text_command, staged_changes, staged_changes_args,
    utf8_lossy, git_has_staged_changes, git_staged_changes_args, lossy_text, LaunchFailure,
    ProcessOutput,
};
use crate::quick_fix::{
    build_issue_watch_quick_fix_prompt, build_quick_fix_prompt, commit_message_for_comment,
    commit_message_for_issue, commit_url, first_nonblank_line, first_non_empty_line,
    issue_branch_name, issue_prompt, issue_watch_quick_fix_branch_name,
    issue_watch_quick_fix_commit_message, parse_quick_fix_output, parsed_report,
    quick_fix_branch_name, quick_fix_commit_message, quick_fix_commit_url, quick_fix_report,
    quick_fix_worktree_dir_name, review_branch_name, review_prompt, worktree_dir_name,
};
use crate::text::{dec, ends_with_char, chars_of, idec, push_decimal, push_i64_decimal, str_views};
use vstd::prelude::*;

verus! {

// ---------------------------------------------------------------------------
// The quick-fix subprocess
// ---------------------------------------------------------------------------

/// How a `codex exec` quick-fix run ended.
#[derive(Debug, Clone, PartialEq, Eq)]
pub enum SubprocessOutcome {
    /// The current executable could not be located; the error text.
    ExecutableMissing(String),
    /// The subprocess could not be started.
    LaunchFailed(LaunchFailure),
    /// The subprocess ran.
    Finished(ProcessOutput),
}

pub open spec fn exec_args(prompt: Seq<char>) -> Seq<Seq<char>> {
    seq!["exec"@, "--skip-git-repo-check"@, "--full-auto"@, prompt]
}

/// `exec --skip-git-repo-check --full-auto <prompt>`.
pub fn quick_fix_exec_args(prompt: &str) -> (r: Vec<String>)
    ensures
        str_views(r@) == exec_args(prompt@),
{
    let r = vec![
        String::from_str("exec"),
        String::from_str("--skip-git-repo-check"),
        String::from_str("--full-auto"),
        prompt.to_owned(),
    ];
    assert(str_views(r@) =~= exec_args(prompt@));
    r
}

/// Nothing of the git steps is recorded yet.
pub open spec fn no_git_fields(r: QuickFixExecutionResult) -> bool {
    &&& r.branch_name is None
    &&& r.commit_sha is None
    &&& r.commit_url is None
    &&& r.pushed is None
    &&& r.remote_branch is None
    &&& r.follow_up_pr_url is None
    &&& r.follow_up_pr_number is None
    &&& r.push_error is None
    &&& r.pr_error is None
}

/// A failed attempt that produced nothing but the error.
pub open spec fn failed_without_output(r: QuickFixExecutionResult, attempted: bool, error: Seq<char>) -> bool {
    &&& r.attempted == attempted
    &&& !r.success
    &&& r.summary is None
    &&& opt_str_view(r.error) == Some(error)
    &&& r.files@.len() == 0
    &&& r.verification is None
    &&& no_git_fields(r)
}

/// A quick fix that failed before producing anything.
pub fn failed_execution(attempted: bool, error: String) -> (r: QuickFixExecutionResult)
    ensures
        failed_without_output(r, attempted, error@),
{
    QuickFixExecutionResult {
        attempted,
        success: false,
        summary: None,
        error: Some(error),
        files: Vec::new(),
        verification: None,
        branch_name: None,
        commit_sha: None,
        commit_url: None,
        pushed: None,
        remote_branch: None,
        follow_up_pr_url: None,
        follow_up_pr_number: None,
        push_error: None,
        pr_error: None,
    }
}

pub open spec fn or_else(a: Option<Seq<char>>, b: Option<Seq<char>>) -> Option<Seq<char>> {
    match a {
        Some(x) => Some(x),
        None => b,
    }
}

/// The summary of a run: its `SUMMARY:` line, else the first line of stdout,
/// else the first line of stderr.
pub open spec fn run_summary(stdout: Seq<char>, stderr: Seq<char>) -> Option<Seq<char>> {
    or_else(
        quick_fix_report(stdout).0,
        or_else(first_nonblank_line(stdout), first_nonblank_line(stderr)),
    )
}

pub open spec fn exit_status_text(exit_code: Option<i32>) -> Seq<char> {
    match exit_code {
        Some(c) => idec(c as int),
        None => "terminated by signal"@,
    }
}

/// What a failed run printed first: stderr's first line, else stdout's.
pub open spec fn run_failure_detail(stdout: Seq<char>, stderr: Seq<char>) -> Seq<char> {
    match or_else(first_nonblank_line(stderr), first_nonblank_line(stdout)) {
        Some(d) => d,
        None => "subprocess returned no output"@,
    }
}

pub open spec fn locate_message(for_issue: bool, err: Seq<char>) -> Seq<char> {
    if for_issue {
        "Unable to locate current executable for issue quick-fix run: "@ + err
    } else {
        "Unable to locate current executable for quick-fix run: "@ + err
    }
}

pub open spec fn launch_message(for_issue: bool, f: LaunchFailure) -> Seq<char> {
    if f.not_found {
        if for_issue {
            "Unable to execute current binary for issue quick-fix run."@
        } else {
            "Unable to execute current binary for quick-fix run."@
        }
    } else if for_issue {
        "Failed to launch issue quick-fix subprocess: "@ + f.message@
    } else {
        "Failed to launch quick-fix subprocess: "@ + f.message@
    }
}

pub open spec fn subprocess_failed_message(for_issue: bool, o: ProcessOutput) -> Seq<char> {
    let stdout = utf8_lossy(o.stdout@);
    let stderr = utf8_lossy(o.stderr@);
    (if for_issue {
        "Issue quick-fix subprocess failed (status "@
    } else {
        "Quick-fix subprocess failed (status "@
    }) + exit_status_text(o.exit_code) + "): "@ + run_failure_detail(stdout, stderr)
}

/// `r` is what a run that ended with `o` yields.
pub open spec fn finished_result(r: QuickFixExecutionResult, for_issue: bool, o: ProcessOutput) -> bool {
    let stdout = utf8_lossy(o.stdout@);
    let stderr = utf8_lossy(o.stderr@);
    let report = quick_fix_report(stdout);
    &&& r.attempted
    &&& r.success == o.success
    &&& opt_str_view(r.summary) == run_summary(stdout, stderr)
    &&& str_views(r.files@) == report.1
    &&& opt_str_view(r.verification) == report.2
    &&& no_git_fields(r)
    &&& if o.success {
        r.error is None
    } else {
        opt_str_view(r.error) == Some(subprocess_failed_message(for_issue, o))
    }
}

/// `r` is what the quick-fix subprocess `outcome` yields.
pub open spec fn subprocess_result(r: QuickFixExecutionResult, for_issue: bool, outcome: SubprocessOutcome) -> bool {
    match outcome {
        SubprocessOutcome::ExecutableMissing(e) => failed_without_output(
            r,
            false,
            locate_message(for_issue, e@),
        ),
        SubprocessOutcome::LaunchFailed(f) => failed_without_output(
            r,
            true,
            launch_message(for_issue, f),
        ),
        SubprocessOutcome::Finished(o) => finished_result(r, for_issue, o),
    }
}

fn text_or(a: Option<String>, b: Option<String>) -> (r: Option<String>)
    ensures
        opt_str_view(r) == or_else(opt_str_view(a), opt_str_view(b)),
{
    match a {
        Some(x) => Some(x),
        None => b,
    }
}

fn launch_error_text(for_issue: bool, f: &LaunchFailure) -> (r: String)
    ensures
        r@ == launch_message(for_issue, *f),
{
    if f.not_found {
        if for_issue {
            String::from_str("Unable to execute current binary for issue quick-fix run.")
        } else {
            String::from_str("Unable to execute current binary for quick-fix run.")
        }
    } else {
        let mut r = if for_issue {
            String::from_str("Failed to launch issue quick-fix subprocess: ")
        } else {
            String::from_str("Failed to launch quick-fix subprocess: ")
        };
        r.append(f.message.as_str());
        r
    }
}

fn finished_execution(for_issue: bool, o: ProcessOutput) -> (r: QuickFixExecutionResult)
    ensures
        finished_result(r, for_issue, o),
{
    let stdout = lossy_text(o.stdout.as_slice());
    let stderr = lossy_text(o.stderr.as_slice());
    let parsed = parse_quick_fix_output(stdout.as_str());
    let summary = text_or(
        parsed.summary,
        text_or(first_non_empty_line(stdout.as_str()), first_non_empty_line(stderr.as_str())),
    );
    let error = if o.success {
        None
    } else {
        let mut m = if for_issue {
            String::from_str("Issue quick-fix subprocess failed (status ")
        } else {
            String::from_str("Quick-fix subprocess failed (status ")
        };
        match o.exit_code {
            Some(c) => push_i64_decimal(&mut m, c as i64),
            None => m.append("terminated by signal"),
        }
        m.append("): ");
        let detail = match text_or(
            first_non_empty_line(stderr.as_str()),
            first_non_empty_line(stdout.as_str()),
        ) {
            Some(d) => d,
            None => String::from_str("subprocess returned no output"),
        };
        m.append(detail.as_str());
        Some(m)
    };
    QuickFixExecutionResult {
        attempted: true,
        success: o.success,
        summary,
        error,
        files: parsed.files,
        verification: parsed.verification,
        branch_name: None,
        commit_sha: None,
        commit_url: None,
        pushed: None,
        remote_branch: None,
        follow_up_pr_url: None,
        follow_up_pr_number: None,
        push_error: None,
        pr_error: None,
    }
}

fn subprocess_execution(for_issue: bool, outcome: SubprocessOutcome) -> (r: QuickFixExecutionResult)
    ensures
        subprocess_result(r, for_issue, outcome),
{
    match outcome {
        SubprocessOutcome::ExecutableMissing(e) => {
            let mut m = if for_issue {
                String::from_str("Unable to locate current executable for issue quick-fix run: ")
            } else {
                String::from_str("Unable to locate current executable for quick-fix run: ")
            };
            m.append(e.as_str());
            failed_execution(false, m)
        },
        SubprocessOutcome::LaunchFailed(f) => failed_execution(true, launch_error_text(for_issue, &f)),
        SubprocessOutcome::Finished(o) => finished_execution(for_issue, o),
    }
}

/// The result of the quick-fix run for a review comment: a run that could
/// not start is not successful and has only the error; a finished run
/// carries its summary, files and verification, and an error with the exit
/// status and first output line when it failed.
pub fn run_quick_fix_subprocess(outcome: SubprocessOutcome) -> (r: QuickFixExecutionResult)
    ensures
        subprocess_result(r, false, outcome),
{
    subprocess_execution(false, outcome)
}

/// The result of the quick-fix run for an issue, as
/// `run_quick_fix_subprocess` with the issue wording.
pub fn run_issue_watch_quick_fix_subprocess(outcome: SubprocessOutcome) -> (r: QuickFixExecutionResult)
    ensures
        subprocess_result(r, true, outcome),
{
    subprocess_execution(true, outcome)
}

// ---------------------------------------------------------------------------
// Single git runs
// ---------------------------------------------------------------------------

/// One step of an exchange with `git`.
#[derive(Debug, Clone, PartialEq, Eq)]
pub enum GitExchange<T> {
    /// Run `git` with these arguments and call back with the outcome.
    Run(Vec<String>),
    /// The exchange is over.
    Finished(T),
}

pub open spec fn head_sha_args() -> Seq<Seq<char>> {
    seq!["rev-parse"@, "HEAD"@]
}

/// The commit at `HEAD` of the current repository.
pub fn current_git_head_sha(outcome: Option<Result<ProcessOutput, LaunchFailure>>) -> (r: GitExchange<
    Result<String, String>,
>)
    ensures
        match outcome {
            None => r matches GitExchange::Run(a) && str_views(a@) == head_sha_args(),
            Some(o) => r matches GitExchange::Finished(res) && result_view(res) == git_text_result(
                head_sha_args(),
                o,
            ),
        },
{
    let args = vec![String::from_str("rev-parse"), String::from_str("HEAD")];
    assert(str_views(args@) =~= head_sha_args());
    match outcome {
        None => GitExchange::Run(args),
        Some(o) => GitExchange::Finished(run_git_text_command(args.as_slice(), o)),
    }
}

pub open spec fn unit_view(r: Result<Seq<char>, Seq<char>>) -> Result<(), Seq<char>> {
    match r {
        Ok(_) => Ok(()),
        Err(e) => Err(e),
    }
}

pub open spec fn unit_result_view(r: Result<(), String>) -> Result<(), Seq<char>> {
    match r {
        Ok(_) => Ok(()),
        Err(e) => Err(e@),
    }
}

fn discard_output(r: Result<String, String>) -> (u: Result<(), String>)
    ensures
        unit_result_view(u) == unit_view(result_view(r)),
{
    match r {
        Ok(_) => Ok(()),
        Err(e) => Err(e),
    }
}

pub open spec fn push_args(worktree_dir: Seq<char>, branch_name: Seq<char>) -> Seq<Seq<char>> {
    seq!["-C"@, worktree_dir, "push"@, "-u"@, "origin"@, branch_name]
}

fn push_request(worktree_dir: &str, branch_name: &str) -> (r: Vec<String>)
    ensures
        str_views(r@) == push_args(worktree_dir@, branch_name@),
{
    let r = vec![
        String::from_str("-C"),
        worktree_dir.to_owned(),
        String::from_str("push"),
        String::from_str("-u"),
        String::from_str("origin"),
        branch_name.to_owned(),
    ];
    assert(str_views(r@) =~= push_args(worktree_dir@, branch_name@));
    r
}

/// Pushes the quick-fix branch to `origin`, setting its upstream.
pub fn push_quick_fix_branch(
    worktree_dir: &str,
    branch_name: &str,
    outcome: Option<Result<ProcessOutput, LaunchFailure>>,
) -> (r: GitExchange<Result<(), String>>)
    ensures
        match outcome {
            None => r matches GitExchange::Run(a) && str_views(a@) == push_args(
                worktree_dir@,
                branch_name@,
            ),
            Some(o) => r matches GitExchange::Finished(res) && unit_result_view(res) == unit_view(
                git_text_result(push_args(worktree_dir@, branch_name@), o),
            ),
        },
{
    let args = push_request(worktree_dir, branch_name);
    match outcome {
        None => GitExchange::Run(args),
        Some(o) => GitExchange::Finished(discard_output(run_git_text_command(args.as_slice(), o))),
    }
}

pub open spec fn worktree_add_args(branch_name: Seq<char>, worktree_dir: Seq<char>, base_sha: Seq<char>) -> Seq<
    Seq<char>,
> {
    seq!["worktree"@, "add"@, "-b"@, branch_name, worktree_dir, base_sha]
}

fn worktree_request(worktree_dir: &str, branch_name: &str, base_sha: &str) -> (r: Vec<String>)
    ensures
        str_views(r@) == worktree_add_args(branch_name@, worktree_dir@, base_sha@),
{
    let r = vec![
        String::from_str("worktree"),
        String::from_str("add"),
        String::from_str("-b"),
        branch_name.to_owned(),
        worktree_dir.to_owned(),
        base_sha.to_owned(),
    ];
    assert(str_views(r@) =~= worktree_add_args(branch_name@, worktree_dir@, base_sha@));
    r
}

/// Adds a worktree at `worktree_dir` on a new branch started at `base_sha`
/// (the caller first creates the directory that holds it).
pub fn create_quick_fix_worktree(
    worktree_dir: &str,
    branch_name: &str,
    base_sha: &str,
    outcome: Option<Result<ProcessOutput, LaunchFailure>>,
) -> (r: GitExchange<Result<(), String>>)
    ensures
        match outcome {
            None => r matches GitExchange::Run(a) && str_views(a@) == worktree_add_args(
                branch_name@,
                worktree_dir@,
                base_sha@,
            ),
            Some(o) => r matches GitExchange::Finished(res) && unit_result_view(res) == unit_view(
                git_text_result(worktree_add_args(branch_name@, worktree_dir@, base_sha@), o),
            ),
        },
{
    let args = worktree_request(worktree_dir, branch_name, base_sha);
    match outcome {
        None => GitExchange::Run(args),
        Some(o) => GitExchange::Finished(discard_output(run_git_text_command(args.as_slice(), o))),
    }
}

// ---------------------------------------------------------------------------
// Committing
// ---------------------------------------------------------------------------

/// The branch and commit that a quick fix produced.
#[derive(Debug, Clone, PartialEq, Eq)]
pub struct QuickFixCommitMetadata {
    pub branch_name: String,
    pub commit_sha: String,
    pub commit_url: String,
}

/// The git run whose outcome a commit waits for.
#[derive(Debug, Clone, Copy, PartialEq, Eq)]
pub enum CommitStage {
    /// `git add -A`
    Adding,
    /// `git diff --cached --quiet`
    CheckingStaged,
    /// `git commit -m <message>`
    Committing,
    /// `git rev-parse HEAD`
    ReadingHead,
}

/// Committing everything in a quick-fix worktree.
#[derive(Debug, Clone, PartialEq, Eq)]
pub struct CommitFlow {
    pub repo: String,
    pub branch_name: String,
    pub worktree_dir: String,
    pub message: String,
    pub stage: CommitStage,
}

pub open spec fn add_all_args(dir: Seq<char>) -> Seq<Seq<char>> {
    seq!["-C"@, dir, "add"@, "-A"@]
}

pub open spec fn commit_args(dir: Seq<char>, message: Seq<char>) -> Seq<Seq<char>> {
    seq!["-C"@, dir, "commit"@, "-m"@, message]
}

pub open spec fn rev_parse_args(dir: Seq<char>) -> Seq<Seq<char>> {
    seq!["-C"@, dir, "rev-parse"@, "HEAD"@]
}

/// The arguments of the run that `stage` waits for.
pub open spec fn stage_args(c: CommitFlow) -> Seq<Seq<char>> {
    match c.stage {
        CommitStage::Adding => add_all_args(c.worktree_dir@),
        CommitStage::CheckingStaged => staged_changes_args(c.worktree_dir@),
        CommitStage::Committing => commit_args(c.worktree_dir@, c.message@),
        CommitStage::ReadingHead => rev_parse_args(c.worktree_dir@),
    }
}

fn stage_request(c: &CommitFlow) -> (r: Vec<String>)
    ensures
        str_views(r@) == stage_args(*c),
{
    let dir = c.worktree_dir.as_str();
    match c.stage {
        CommitStage::Adding => {
            let r = vec![String::from_str("-C"), dir.to_owned(), String::from_str("add"), String::from_str("-A")];
            assert(str_views(r@) =~= stage_args(*c));
            r
        },
        CommitStage::CheckingStaged => git_staged_changes_args(dir),
        CommitStage::Committing => {
            let r = vec![
                String::from_str("-C"),
                dir.to_owned(),
                String::from_str("commit"),
                String::from_str("-m"),
                c.message.clone(),
            ];
            assert(str_views(r@) =~= stage_args(*c));
            r
        },
        CommitStage::ReadingHead => {
            let r = vec![
                String::from_str("-C"),
                dir.to_owned(),
                String::from_str("rev-parse"),
                String::from_str("HEAD"),
            ];
            assert(str_views(r@) =~= stage_args(*c));
            r
        },
    }
}

/// Where a commit goes after the outcome of the run it waited for.
pub enum CommitProgress {
    Next { stage: CommitStage },
    Committed { sha: Seq<char> },
    Failed { error: Seq<char> },
}

pub open spec fn no_changes_message() -> Seq<char> {
    "no changes were produced to commit"@
}

pub open spec fn commit_progress(c: CommitFlow, o: Result<ProcessOutput, LaunchFailure>) -> CommitProgress {
    match c.stage {
        CommitStage::Adding => match git_text_result(add_all_args(c.worktree_dir@), o) {
            Err(e) => CommitProgress::Failed { error: e },
            Ok(_) => CommitProgress::Next { stage: CommitStage::CheckingStaged },
        },
        CommitStage::CheckingStaged => match staged_changes(o) {
            Err(e) => CommitProgress::Failed { error: e },
            Ok(false) => CommitProgress::Failed { error: no_changes_message() },
            Ok(true) => CommitProgress::Next { stage: CommitStage::Committing },
        },
        CommitStage::Committing => match git_text_result(commit_args(c.worktree_dir@, c.message@), o) {
            Err(e) => CommitProgress::Failed { error: e },
            Ok(_) => CommitProgress::Next { stage: CommitStage::ReadingHead },
        },
        CommitStage::ReadingHead => match git_text_result(rev_parse_args(c.worktree_dir@), o) {
            Err(e) => CommitProgress::Failed { error: e },
            Ok(sha) => CommitProgress::Committed { sha },
        },
    }
}

/// The metadata of a commit `sha` made on the flow's branch.
pub open spec fn commit_metadata(m: QuickFixCommitMetadata, c: CommitFlow, sha: Seq<char>) -> bool {
    &&& m.branch_name == c.branch_name
    &&& m.commit_sha@ == sha
    &&& m.commit_url@ == commit_url(c.repo@, sha)
}

/// The commit of a review-comment quick fix; the first run is `git add -A`.
pub fn commit_quick_fix_changes(
    repo: &str,
    pr: u64,
    item: &ProcessCommentTriageItem,
    branch_name: &str,
    worktree_dir: &str,
) -> (r: (CommitFlow, Vec<String>))
    ensures
        r.0.repo@ == repo@,
        r.0.branch_name@ == branch_name@,
        r.0.worktree_dir@ == worktree_dir@,
        r.0.message@ == commit_message_for_comment(pr, item.comment_id@),
        r.0.stage == CommitStage::Adding,
        str_views(r.1@) == add_all_args(worktree_dir@),
{
    let flow = CommitFlow {
        repo: repo.to_owned(),
        branch_name: branch_name.to_owned(),
        worktree_dir: worktree_dir.to_owned(),
        message: quick_fix_commit_message(pr, item.comment_id.as_str()),
        stage: CommitStage::Adding,
    };
    let args = stage_request(&flow);
    (flow, args)
}

/// The commit of an issue quick fix; the first run is `git add -A`.
pub fn commit_issue_watch_quick_fix_changes(
    repo: &str,
    issue: &ProcessWatchIssueCandidate,
    branch_name: &str,
    worktree_dir: &str,
) -> (r: (CommitFlow, Vec<String>))
    ensures
        r.0.repo@ == repo@,
        r.0.branch_name@ == branch_name@,
        r.0.worktree_dir@ == worktree_dir@,
        r.0.message@ == commit_message_for_issue(issue.number),
        r.0.stage == CommitStage::Adding,
        str_views(r.1@) == add_all_args(worktree_dir@),
{
    let flow = CommitFlow {
        repo: repo.to_owned(),
        branch_name: branch_name.to_owned(),
        worktree_dir: worktree_dir.to_owned(),
        message: issue_watch_quick_fix_commit_message(issue.number),
        stage: CommitStage::Adding,
    };
    let args = stage_request(&flow);
    (flow, args)
}

/// Takes the outcome of the run the commit waited for: stage everything,
/// make sure something is staged, commit, and read the new commit's sha.
/// The first failure ends the commit; so does a worktree without changes.
pub fn advance_commit(flow: &mut CommitFlow, outcome: Result<ProcessOutput, LaunchFailure>) -> (r:
    GitExchange<Result<QuickFixCommitMetadata, String>>)
    ensures
        final(flow).repo == old(flow).repo,
        final(flow).branch_name == old(flow).branch_name,
        final(flow).worktree_dir == old(flow).worktree_dir,
        final(flow).message == old(flow).message,
        match commit_progress(*old(flow), outcome) {
            CommitProgress::Next { stage } => {
                &&& final(flow).stage == stage
                &&& r matches GitExchange::Run(a) && str_views(a@) == stage_args(*final(flow))
            },
            CommitProgress::Committed { sha } => r matches GitExchange::Finished(res) && res matches Ok(
                m,
            ) && commit_metadata(m, *old(flow), sha),
            CommitProgress::Failed { error } => r matches GitExchange::Finished(res) && res matches Err(
                e,
            ) && e@ == error,
        },
{
    let args = stage_request(flow);
    match flow.stage {
        CommitStage::Adding => match run_git_text_command(args.as_slice(), outcome) {
            Err(e) => GitExchange::Finished(Err(e)),
            Ok(_) => {
                flow.stage = CommitStage::CheckingStaged;
                GitExchange::Run(stage_request(flow))
            },
        },
        CommitStage::CheckingStaged => match git_has_staged_changes(outcome) {
            Err(e) => GitExchange::Finished(Err(e)),
            Ok(false) => GitExchange::Finished(Err(String::from_str("no changes were produced to commit"))),
            Ok(true) => {
                flow.stage = CommitStage::Committing;
                GitExchange::Run(stage_request(flow))
            },
        },
        CommitStage::Committing => match run_git_text_command(args.as_slice(), outcome) {
            Err(e) => GitExchange::Finished(Err(e)),
            Ok(_) => {
                flow.stage = CommitStage::ReadingHead;
                GitExchange::Run(stage_request(flow))
            },
        },
        CommitStage::ReadingHead => match run_git_text_command(args.as_slice(), outcome) {
            Err(e) => GitExchange::Finished(Err(e)),
            Ok(sha) => {
                let url = quick_fix_commit_url(flow.repo.as_str(), sha.as_str());
                GitExchange::Finished(
                    Ok(
                        QuickFixCommitMetadata {
                            branch_name: flow.branch_name.clone(),
                            commit_sha: sha,
                            commit_url: url,
                        },
                    ),
                )
            },
        },
    }
}

// ---------------------------------------------------------------------------
// A quick fix on its own branch
// ---------------------------------------------------------------------------

/// What a quick fix is for.
#[derive(Debug, Clone, PartialEq, Eq)]
pub enum QuickFixSubject {
    /// A review comment of a pull request.
    ReviewComment { pr: u64, comment_id: String },
    /// An issue.
    Issue { number: u64 },
}

/// The step a quick fix on its own branch waits on.
#[derive(Debug, Clone, PartialEq, Eq)]
pub enum IsolatedStage {
    /// Its worktree is being added.
    CreatingWorktree,
    /// The `codex exec` subprocess runs in the worktree.
    RunningQuickFix,
    /// The changes are being committed.
    Committing(CommitFlow),
    /// The branch is being pushed.
    Pushing,
    /// The quick fix is over; its result is in `execution`.
    Finished,
}

/// A quick fix made in its own worktree, on a branch of its own started at
/// `base_sha`, then committed and pushed.
#[derive(Debug, Clone, PartialEq, Eq)]
pub struct IsolatedQuickFix {
    pub repo: String,
    pub subject: QuickFixSubject,
    pub branch_name: String,
    pub worktree_dir: String,
    pub base_sha: String,
    pub prompt: String,
    pub stage: IsolatedStage,
    pub execution: QuickFixExecutionResult,
}

/// What the caller does next for a quick fix on its own branch.
#[derive(Debug, Clone, PartialEq, Eq)]
pub enum IsolatedAction {
    /// Create the directory that holds `worktree_dir`, then run `git` with
    /// `args`; report a failure of the first as `DirectoryFailed`.
    CreateWorktree { worktree_dir: String, args: Vec<String> },
    /// Run the current executable with `args` in `work_dir`.
    RunQuickFix { work_dir: String, args: Vec<String> },
    /// Run `git` with these arguments.
    Git(Vec<String>),
    /// The result is in the flow's `execution`.
    Finished,
}

/// The outcome of the last action.
#[derive(Debug, PartialEq, Eq)]
pub enum IsolatedEvent {
    /// The directory for the worktree could not be created; the error text.
    DirectoryFailed(String),
    GitRan(Result<ProcessOutput, LaunchFailure>),
    QuickFixRan(SubprocessOutcome),
}

/// `root` joined with a relative `name`.
pub open spec fn join_path(root: Seq<char>, name: Seq<char>) -> Seq<char> {
    if root.len() == 0 {
        name
    } else if root.last() == '/' {
        root + name
    } else {
        root + "/"@ + name
    }
}

fn join_path_exec(root: &str, name: &str) -> (r: String)
    ensures
        r@ == join_path(root@, name@),
{
    let cs = chars_of(root);
    if cs.len() == 0 {
        name.to_owned()
    } else if ends_with_char(&cs, '/') {
        let mut r = root.to_owned();
        r.append(name);
        r
    } else {
        let mut r = root.to_owned();
        r.append("/");
        r.append(name);
        r
    }
}

pub open spec fn is_issue(subject: QuickFixSubject) -> bool {
    subject is Issue
}

pub open spec fn worktree_failure(subject: QuickFixSubject, err: Seq<char>) -> Seq<char> {
    match subject {
        QuickFixSubject::ReviewComment { comment_id, .. } => "Unable to create isolated worktree for quick-fix item "@
            + comment_id@ + ": "@ + err,
        QuickFixSubject::Issue { number } => "Unable to create isolated worktree for issue #"@ + dec(
            number as nat,
        ) + ": "@ + err,
    }
}

pub open spec fn commit_failure(subject: QuickFixSubject, err: Seq<char>) -> Seq<char> {
    match subject {
        QuickFixSubject::ReviewComment { comment_id, .. } => "Quick-fix commit step failed for comment "@
            + comment_id@ + ": "@ + err,
        QuickFixSubject::Issue { number } => "Issue quick-fix commit step failed for issue #"@ + dec(
            number as nat,
        ) + ": "@ + err,
    }
}

pub open spec fn issue_push_failure(number: u64, err: Seq<char>) -> Seq<char> {
    "Issue quick-fix push failed for issue #"@ + dec(number as nat) + ": "@ + err
}

pub open spec fn skipped_pr_after_push_failure() -> Seq<char> {
    "Skipped PR creation because branch push failed."@
}

/// The flow as it starts: the worktree is added first.
pub open spec fn isolated_start(
    f: IsolatedQuickFix,
    a: IsolatedAction,
    repo: Seq<char>,
    base_sha: Seq<char>,
    worktree_root: Seq<char>,
) -> bool {
    &&& f.repo@ == repo
    &&& f.base_sha@ == base_sha
    &&& f.worktree_dir@ == join_path(worktree_root, worktree_dir_name(f.branch_name@))
    &&& f.stage == IsolatedStage::CreatingWorktree
    &&& a matches IsolatedAction::CreateWorktree { worktree_dir, args } && worktree_dir == f.worktree_dir
        && str_views(args@) == worktree_add_args(f.branch_name@, f.worktree_dir@, base_sha)
}

fn start_isolated(
    repo: &str,
    subject: QuickFixSubject,
    branch_name: String,
    prompt: String,
    base_sha: &str,
    worktree_root: &str,
) -> (r: (IsolatedQuickFix, IsolatedAction))
    ensures
        isolated_start(r.0, r.1, repo@, base_sha@, worktree_root@),
        r.0.subject == subject,
        r.0.branch_name == branch_name,
        r.0.prompt == prompt,
{
    let dir_name = quick_fix_worktree_dir_name(branch_name.as_str());
    let worktree_dir = join_path_exec(worktree_root, dir_name.as_str());
    let args = worktree_request(worktree_dir.as_str(), branch_name.as_str(), base_sha);
    let action = IsolatedAction::CreateWorktree { worktree_dir: worktree_dir.clone(), args };
    let flow = IsolatedQuickFix {
        repo: repo.to_owned(),
        subject,
        branch_name,
        worktree_dir,
        base_sha: base_sha.to_owned(),
        prompt,
        stage: IsolatedStage::CreatingWorktree,
        execution: failed_execution(false, String::new()),
    };
    (flow, action)
}

/// Starts the quick fix of a review comment on the branch
/// `process/quick-fix-pr-<pr>-<short comment id>`, in a worktree under
/// `worktree_root`.
pub fn run_quick_fix_item_in_isolated_branch(
    repo: &str,
    pr: u64,
    item: &ProcessCommentTriageItem,
    base_sha: &str,
    worktree_root: &str,
) -> (r: (IsolatedQuickFix, IsolatedAction))
    ensures
        isolated_start(r.0, r.1, repo@, base_sha@, worktree_root@),
        r.0.subject == (QuickFixSubject::ReviewComment { pr, comment_id: item.comment_id }),
        r.0.branch_name@ == review_branch_name(pr, item.comment_id@),
        r.0.prompt@ == review_prompt(repo@, pr, item.comment_url@, item.body@),
{
    let branch_name = quick_fix_branch_name(pr, item.comment_id.as_str());
    let prompt = build_quick_fix_prompt(repo, pr, item);
    let subject = QuickFixSubject::ReviewComment { pr, comment_id: item.comment_id.clone() };
    start_isolated(repo, subject, branch_name, prompt, base_sha, worktree_root)
}

/// Starts the quick fix of an issue on a branch named after the issue and
/// the run, in a worktree under `worktree_root`.
pub fn run_issue_watch_quick_fix_in_isolated_branch(
    repo: &str,
    issue: &ProcessWatchIssueCandidate,
    base_sha: &str,
    worktree_root: &str,
    run_id: &str,
) -> (r: (IsolatedQuickFix, IsolatedAction))
    ensures
        isolated_start(r.0, r.1, repo@, base_sha@, worktree_root@),
        r.0.subject == (QuickFixSubject::Issue { number: issue.number }),
        r.0.branch_name@ == issue_branch_name(issue.number, run_id@),
        r.0.prompt@ == issue_prompt(issue.number, issue.url@, issue.title@, issue.body@),
{
    let branch_name = issue_watch_quick_fix_branch_name(issue.number, run_id);
    let prompt = build_issue_watch_quick_fix_prompt(issue);
    start_isolated(repo, QuickFixSubject::Issue { number: issue.number }, branch_name, prompt, base_sha, worktree_root)
}

/// Whether `event` answers the action of `stage`.
pub open spec fn event_fits(stage: IsolatedStage, event: IsolatedEvent) -> bool {
    match stage {
        IsolatedStage::CreatingWorktree => event is DirectoryFailed || event is GitRan,
        IsolatedStage::RunningQuickFix => event is QuickFixRan,
        IsolatedStage::Committing(_) => event is GitRan,
        IsolatedStage::Pushing => event is GitRan,
        IsolatedStage::Finished => false,
    }
}

/// The worktree could not be added: nothing was attempted; the branch name
/// is recorded.
pub open spec fn worktree_failed(r: QuickFixExecutionResult, f: IsolatedQuickFix, err: Seq<char>) -> bool {
    &&& !r.attempted
    &&& !r.success
    &&& r.summary is None
    &&& opt_str_view(r.error) == Some(worktree_failure(f.subject, err))
    &&& r.files@.len() == 0
    &&& r.verification is None
    &&& r.branch_name == Some(f.branch_name)
    &&& r.commit_sha is None && r.commit_url is None && r.pushed is None && r.remote_branch is None
    &&& r.follow_up_pr_url is None && r.follow_up_pr_number is None
    &&& r.push_error is None && r.pr_error is None
}

/// `r` is the subprocess result on the flow's branch.
pub open spec fn ran_on_branch(r: QuickFixExecutionResult, f: IsolatedQuickFix, outcome: SubprocessOutcome) -> bool {
    exists|plain: QuickFixExecutionResult|
        #![trigger subprocess_result(plain, is_issue(f.subject), outcome)]
        subprocess_result(plain, is_issue(f.subject), outcome) && r == (QuickFixExecutionResult {
            branch_name: Some(f.branch_name),
            ..plain
        })
}

/// The quick fix was committed as `m`.
pub open spec fn committed(a: QuickFixExecutionResult, r: QuickFixExecutionResult, m_branch: String, sha: Seq<char>, repo: Seq<char>) -> bool {
    &&& r.branch_name == Some(m_branch)
    &&& opt_str_view(r.commit_sha) == Some(sha)
    &&& opt_str_view(r.commit_url) == Some(commit_url(repo, sha))
    &&& r == (QuickFixExecutionResult { branch_name: r.branch_name, commit_sha: r.commit_sha, commit_url: r.commit_url, ..a })
}

/// The commit failed with `err`.
pub open spec fn commit_failed(a: QuickFixExecutionResult, r: QuickFixExecutionResult, f: IsolatedQuickFix, err: Seq<char>) -> bool {
    &&& !r.success
    &&& opt_str_view(r.error) == Some(commit_failure(f.subject, err))
    &&& r.commit_sha is None
    &&& r.commit_url is None
    &&& r == (QuickFixExecutionResult { success: false, error: r.error, commit_sha: None, commit_url: None, ..a })
}

/// The push ended with `res`.
pub open spec fn pushed(a: QuickFixExecutionResult, r: QuickFixExecutionResult, f: IsolatedQuickFix, res: Result<Seq<char>, Seq<char>>) -> bool {
    &&& r.remote_branch == Some(f.branch_name)
    &&& match res {
        Ok(_) => r == (QuickFixExecutionResult { pushed: Some(true), remote_branch: r.remote_branch, ..a }),
        Err(e) => {
            &&& opt_str_view(r.push_error) == Some(e)
            &&& match f.subject {
                QuickFixSubject::ReviewComment { .. } => {
                    &&& opt_str_view(r.pr_error) == Some(skipped_pr_after_push_failure())
                    &&& r == (QuickFixExecutionResult {
                        pushed: Some(false),
                        remote_branch: r.remote_branch,
                        push_error: r.push_error,
                        pr_error: r.pr_error,
                        ..a
                    })
                },
                QuickFixSubject::Issue { number } => {
                    &&& opt_str_view(r.error) == Some(issue_push_failure(number, e))
                    &&& r == (QuickFixExecutionResult {
                        success: false,
                        pushed: Some(false),
                        remote_branch: r.remote_branch,
                        push_error: r.push_error,
                        error: r.error,
                        ..a
                    })
                },
            }
        },
    }
}

/// The flow after `event`, apart from its stage and the action.
pub open spec fn isolated_transition(
    f: IsolatedQuickFix,
    event: IsolatedEvent,
    g: IsolatedQuickFix,
    r: IsolatedAction,
) -> bool {
    match f.stage {
        IsolatedStage::CreatingWorktree => {
            let res = match event {
                IsolatedEvent::DirectoryFailed(e) => Err(e@),
                IsolatedEvent::GitRan(o) => unit_view(
                    git_text_result(worktree_add_args(f.branch_name@, f.worktree_dir@, f.base_sha@), o),
                ),
                _ => Ok(()),
            };
            match res {
                Err(e) => g.stage == IsolatedStage::Finished && r is Finished && worktree_failed(
                    g.execution,
                    f,
                    e,
                ),
                Ok(_) => {
                    &&& g.stage == IsolatedStage::RunningQuickFix
                    &&& g.execution == f.execution
                    &&& r matches IsolatedAction::RunQuickFix { work_dir, args } && work_dir
                        == f.worktree_dir && str_views(args@) == exec_args(f.prompt@)
                },
            }
        },
        IsolatedStage::RunningQuickFix => match event {
            IsolatedEvent::QuickFixRan(outcome) => {
                &&& ran_on_branch(g.execution, f, outcome)
                &&& if g.execution.success {
                    &&& g.stage matches IsolatedStage::Committing(c) && c.repo == f.repo
                        && c.branch_name == f.branch_name && c.worktree_dir == f.worktree_dir
                        && c.message@ == (match f.subject {
                        QuickFixSubject::ReviewComment { pr, comment_id } => commit_message_for_comment(
                            pr,
                            comment_id@,
                        ),
                        QuickFixSubject::Issue { number } => commit_message_for_issue(number),
                    }) && c.stage == CommitStage::Adding
                    &&& r matches IsolatedAction::Git(a) && str_views(a@) == add_all_args(
                        f.worktree_dir@,
                    )
                } else {
                    g.stage == IsolatedStage::Finished && r is Finished
                }
            },
            _ => true,
        },
        IsolatedStage::Committing(c) => match event {
            IsolatedEvent::GitRan(o) => match commit_progress(c, o) {
                CommitProgress::Next { stage } => {
                    &&& g.stage == IsolatedStage::Committing(CommitFlow { stage, ..c })
                    &&& g.execution == f.execution
                    &&& r matches IsolatedAction::Git(a) && str_views(a@) == stage_args(
                        CommitFlow { stage, ..c },
                    )
                },
                CommitProgress::Committed { sha } => {
                    &&& committed(f.execution, g.execution, c.branch_name, sha, c.repo@)
                    &&& g.stage == IsolatedStage::Pushing
                    &&& r matches IsolatedAction::Git(a) && str_views(a@) == push_args(
                        f.worktree_dir@,
                        f.branch_name@,
                    )
                },
                CommitProgress::Failed { error } => {
                    &&& commit_failed(f.execution, g.execution, f, error)
                    &&& g.stage == IsolatedStage::Finished
                    &&& r is Finished
                },
            },
            _ => true,
        },
        IsolatedStage::Pushing => match event {
            IsolatedEvent::GitRan(o) => {
                &&& pushed(
                    f.execution,
                    g.execution,
                    f,
                    git_text_result(push_args(f.worktree_dir@, f.branch_name@), o),
                )
                &&& g.stage == IsolatedStage::Finished
                &&& r is Finished
            },
            _ => true,
        },
        IsolatedStage::Finished => true,
    }
}

fn worktree_failed_execution(f: &IsolatedQuickFix, err: String) -> (r: QuickFixExecutionResult)
    ensures
        worktree_failed(r, *f, err@),
{
    let mut m = match &f.subject {
        QuickFixSubject::ReviewComment { comment_id, .. } => {
            let mut m = String::from_str("Unable to create isolated worktree for quick-fix item ");
            m.append(comment_id.as_str());
            m
        },
        QuickFixSubject::Issue { number } => {
            let mut m = String::from_str("Unable to create isolated worktree for issue #");
            push_decimal(&mut m, *number);
            m
        },
    };
    m.append(": ");
    m.append(err.as_str());
    let mut r = failed_execution(false, m);
    r.branch_name = Some(f.branch_name.clone());
    r
}

fn commit_failure_text(subject: &QuickFixSubject, err: &str) -> (r: String)
    ensures
        r@ == commit_failure(*subject, err@),
{
    let mut m = match subject {
        QuickFixSubject::ReviewComment { comment_id, .. } => {
            let mut m = String::from_str("Quick-fix commit step failed for comment ");
            m.append(comment_id.as_str());
            m
        },
        QuickFixSubject::Issue { number } => {
            let mut m = String::from_str("Issue quick-fix commit step failed for issue #");
            push_decimal(&mut m, *number);
            m
        },
    };
    m.append(": ");
    m.append(err);
    m
}

fn commit_message_of(subject: &QuickFixSubject) -> (r: String)
    ensures
        r@ == (match *subject {
            QuickFixSubject::ReviewComment { pr, comment_id } => commit_message_for_comment(pr, comment_id@),
            QuickFixSubject::Issue { number } => commit_message_for_issue(number),
        }),
{
    match subject {
        QuickFixSubject::ReviewComment { pr, comment_id } => quick_fix_commit_message(*pr, comment_id.as_str()),
        QuickFixSubject::Issue { number } => issue_watch_quick_fix_commit_message(*number),
    }
}

/// Takes the outcome of the last action: a worktree that could not be added
/// ends the quick fix unattempted; a failed subprocess ends it; otherwise
/// the changes are committed, and a failed commit ends it unsuccessful; at
/// last the branch is pushed. A failed push of a review-comment fix leaves
/// it successful and skips its pull request; that of an issue fix fails it.
#[verifier::rlimit(30)]
pub fn advance_isolated_quick_fix(flow: &mut IsolatedQuickFix, event: IsolatedEvent) -> (r: IsolatedAction)
    requires
        event_fits(old(flow).stage, event),
    ensures
        final(flow).repo == old(flow).repo,
        final(flow).subject == old(flow).subject,
        final(flow).branch_name == old(flow).branch_name,
        final(flow).worktree_dir == old(flow).worktree_dir,
        final(flow).base_sha == old(flow).base_sha,
        final(flow).prompt == old(flow).prompt,
        isolated_transition(*old(flow), event, *final(flow), r),
        r is Finished <==> final(flow).stage == IsolatedStage::Finished,
{
    let mut stage = IsolatedStage::Finished;
    std::mem::swap(&mut stage, &mut flow.stage);
    match stage {
        IsolatedStage::CreatingWorktree => {
            let res: Result<(), String> = match event {
                IsolatedEvent::DirectoryFailed(e) => Err(e),
                IsolatedEvent::GitRan(o) => {
                    let args = worktree_request(flow.worktree_dir.as_str(), flow.branch_name.as_str(), flow.base_sha.as_str());
                    discard_output(run_git_text_command(args.as_slice(), o))
                },
                IsolatedEvent::QuickFixRan(_) => Ok(()),
            };
            match res {
                Err(e) => {
                    flow.execution = worktree_failed_execution(flow, e);
                    IsolatedAction::Finished
                },
                Ok(()) => {
                    flow.stage = IsolatedStage::RunningQuickFix;
                    IsolatedAction::RunQuickFix {
                        work_dir: flow.worktree_dir.clone(),
                        args: quick_fix_exec_args(flow.prompt.as_str()),
                    }
                },
            }
        },
        IsolatedStage::RunningQuickFix => {
            match event {
                IsolatedEvent::QuickFixRan(outcome) => {
                    let mut execution = match &flow.subject {
                        QuickFixSubject::ReviewComment { .. } => run_quick_fix_subprocess(outcome),
                        QuickFixSubject::Issue { .. } => run_issue_watch_quick_fix_subprocess(outcome),
                    };
                    let ghost plain = execution;
                    execution.branch_name = Some(flow.branch_name.clone());
                    let success = execution.success;
                    flow.execution = execution;
                    assert(subprocess_result(plain, is_issue(flow.subject), outcome));
                    assert(flow.execution == (QuickFixExecutionResult {
                        branch_name: Some(flow.branch_name),
                        ..plain
                    }));
                    if !success {
                        return IsolatedAction::Finished;
                    }
                    let c = CommitFlow {
                        repo: flow.repo.clone(),
                        branch_name: flow.branch_name.clone(),
                        worktree_dir: flow.worktree_dir.clone(),
                        message: commit_message_of(&flow.subject),
                        stage: CommitStage::Adding,
                    };
                    let args = stage_request(&c);
                    flow.stage = IsolatedStage::Committing(c);
                    IsolatedAction::Git(args)
                },
                _ => IsolatedAction::Finished,
            }
        },
        IsolatedStage::Committing(c) => {
            let mut c = c;
            match event {
                IsolatedEvent::GitRan(o) => match advance_commit(&mut c, o) {
                    GitExchange::Run(args) => {
                        flow.stage = IsolatedStage::Committing(c);
                        IsolatedAction::Git(args)
                    },
                    GitExchange::Finished(Ok(m)) => {
                        flow.execution.branch_name = Some(m.branch_name);
                        flow.execution.commit_sha = Some(m.commit_sha);
                        flow.execution.commit_url = Some(m.commit_url);
                        flow.stage = IsolatedStage::Pushing;
                        IsolatedAction::Git(push_request(flow.worktree_dir.as_str(), flow.branch_name.as_str()))
                    },
                    GitExchange::Finished(Err(e)) => {
                        flow.execution.success = false;
                        flow.execution.error = Some(commit_failure_text(&flow.subject, e.as_str()));
                        flow.execution.commit_sha = None;
                        flow.execution.commit_url = None;
                        IsolatedAction::Finished
                    },
                },
                _ => IsolatedAction::Finished,
            }
        },
        IsolatedStage::Pushing => {
            match event {
                IsolatedEvent::GitRan(o) => {
                    let args = push_request(flow.worktree_dir.as_str(), flow.branch_name.as_str());
                    let res = run_git_text_command(args.as_slice(), o);
                    flow.execution.remote_branch = Some(flow.branch_name.clone());
                    match res {
                        Ok(_) => {
                            flow.execution.pushed = Some(true);
                        },
                        Err(e) => {
                            flow.execution.pushed = Some(false);
                            match &flow.subject {
                                QuickFixSubject::ReviewComment { .. } => {
                                    flow.execution.push_error = Some(e);
                                    flow.execution.pr_error = Some(
                                        String::from_str("Skipped PR creation because branch push failed."),
                                    );
                                },
                                QuickFixSubject::Issue { number } => {
                                    let mut m = String::from_str("Issue quick-fix push failed for issue #");
                                    push_decimal(&mut m, *number);
                                    m.append(": ");
                                    m.append(e.as_str());
                                    flow.execution.success = false;
                                    flow.execution.push_error = Some(e);
                                    flow.execution.error = Some(m);
                                },
                            }
                        },
                    }
                    IsolatedAction::Finished
                },
                _ => IsolatedAction::Finished,
            }
        },
        IsolatedStage::Finished => IsolatedAction::Finished,
    }
}

} // verus!
