use codex_process::guardrails::ProcessMutationSkipReason;
use codex_process::issues_watch::{
    act_on_watched_issue, collect_issue_actions, issues_watch_act_counts, issues_watch_act_queue,
    planned_issue_actions, start_watched_issue_act,
    watch_issue_entries, worker_count, ProcessIssuesWatchActIssueAction, WatchedIssueEvent,
    WatchedIssueStage, WatchedIssueStep,
};
use codex_process::guardrails::build_process_issues_watch_act_queue_plan;
use codex_process::model::{
    OpenIssueComment, ProcessCommentTriageItem, ProcessWatchIssueCandidate,
    QuickFixExecutionResult, UnresolvedReviewComment,
};
use codex_process::pr_comments::{
    build_triage_items, commit_sha_sliceable, grouped_by_type, process_mode_pr_comments,
    start_pr_comments_act, summaries_sha_sliceable, triage_counts, update_comment_body_ready,
    PrCommentsAction, PrCommentsEvent, PrCommentsStage,
};
use codex_process::process_io::{LaunchFailure, ProcessOutput};
use codex_process::quick_fix_run::{
    advance_commit, advance_isolated_quick_fix, commit_issue_watch_quick_fix_changes,
    commit_quick_fix_changes, create_quick_fix_worktree, current_git_head_sha, failed_execution,
    push_quick_fix_branch, quick_fix_exec_args, run_issue_watch_quick_fix_in_isolated_branch,
    run_issue_watch_quick_fix_subprocess, run_quick_fix_item_in_isolated_branch,
    run_quick_fix_subprocess, CommitStage, GitExchange, IsolatedAction, IsolatedEvent,
    IsolatedStage, SubprocessOutcome,
};
use codex_process::triage::{IssueWatchDecision, TriageDecision};
use std::sync::atomic::AtomicUsize;

fn output(code: i32, stdout: &str, stderr: &str) -> ProcessOutput {
    ProcessOutput {
        exit_code: Some(code),
        success: code == 0,
        status: format!("exit status: {code}"),
        stdout: stdout.as_bytes().to_vec(),
        stderr: stderr.as_bytes().to_vec(),
    }
}

fn strings(items: &[&str]) -> Vec<String> {
    items.iter().map(|s| s.to_string()).collect()
}

fn review(id: &str, body: &str) -> UnresolvedReviewComment {
    UnresolvedReviewComment {
        id: id.to_string(),
        review_thread_id: Some(format!("T_{id}")),
        author: "alice".to_string(),
        path: "src/lib.rs".to_string(),
        line: Some(3),
        body: body.to_string(),
        url: format!("https://github.com/o/r/pull/5#{id}"),
    }
}

fn conversation(id: &str, body: &str) -> OpenIssueComment {
    OpenIssueComment {
        id: id.to_string(),
        author: "bob".to_string(),
        body: body.to_string(),
        url: format!("https://github.com/o/r/pull/5#issuecomment-{id}"),
    }
}

fn issue(number: u64, title: &str, labels: &[&str]) -> ProcessWatchIssueCandidate {
    ProcessWatchIssueCandidate {
        number,
        title: title.to_string(),
        body: String::new(),
        url: format!("https://github.com/o/r/issues/{number}"),
        labels: strings(labels),
    }
}

fn successful_execution(branch: &str) -> QuickFixExecutionResult {
    let mut e = failed_execution(true, String::new());
    e.success = true;
    e.error = None;
    e.summary = Some("Fixed the typo".to_string());
    e.branch_name = Some(branch.to_string());
    e.commit_sha = Some("0123456789abcdef".to_string());
    e.commit_url = Some("https://github.com/o/r/commit/0123456789abcdef".to_string());
    e.pushed = Some(true);
    e.remote_branch = Some(branch.to_string());
    e
}

// ---------------------------------------------------------------------------
// The quick-fix subprocess
// ---------------------------------------------------------------------------

#[test]
fn quick_fix_subprocess_success_carries_the_report() {
    let r = run_quick_fix_subprocess(SubprocessOutcome::Finished(output(
        0,
        "working\nSUMMARY: renamed helper\nFILES: a.rs, b.rs\nVERIFICATION: cargo test\n",
        "",
    )));
    assert!(r.attempted && r.success);
    assert_eq!(r.summary.as_deref(), Some("renamed helper"));
    assert_eq!(r.files, strings(&["a.rs", "b.rs"]));
    assert_eq!(r.verification.as_deref(), Some("cargo test"));
    assert_eq!(r.error, None);
}

#[test]
fn quick_fix_subprocess_failure_reports_status_and_first_line() {
    let r = run_quick_fix_subprocess(SubprocessOutcome::Finished(output(2, "out line\n", "\n err line\n")));
    assert!(r.attempted && !r.success);
    assert_eq!(r.summary.as_deref(), Some("out line"));
    assert_eq!(r.error.as_deref(), Some("Quick-fix subprocess failed (status 2): err line"));
    let mut signalled = output(0, "", "");
    signalled.exit_code = None;
    signalled.success = false;
    let r = run_issue_watch_quick_fix_subprocess(SubprocessOutcome::Finished(signalled));
    assert_eq!(
        r.error.as_deref(),
        Some("Issue quick-fix subprocess failed (status terminated by signal): subprocess returned no output")
    );
    assert_eq!(r.summary, None);
}

#[test]
fn quick_fix_subprocess_that_cannot_start() {
    let r = run_quick_fix_subprocess(SubprocessOutcome::ExecutableMissing("gone".to_string()));
    assert!(!r.attempted && !r.success);
    assert_eq!(r.error.as_deref(), Some("Unable to locate current executable for quick-fix run: gone"));
    let r = run_issue_watch_quick_fix_subprocess(SubprocessOutcome::LaunchFailed(LaunchFailure {
        not_found: true,
        message: String::new(),
    }));
    assert!(r.attempted);
    assert_eq!(r.error.as_deref(), Some("Unable to execute current binary for issue quick-fix run."));
    let r = run_quick_fix_subprocess(SubprocessOutcome::LaunchFailed(LaunchFailure {
        not_found: false,
        message: "denied".to_string(),
    }));
    assert_eq!(r.error.as_deref(), Some("Failed to launch quick-fix subprocess: denied"));
    assert_eq!(
        quick_fix_exec_args("do it"),
        strings(&["exec", "--skip-git-repo-check", "--full-auto", "do it"])
    );
}

// ---------------------------------------------------------------------------
// git steps
// ---------------------------------------------------------------------------

#[test]
fn single_git_exchanges() {
    assert_eq!(current_git_head_sha(None), GitExchange::Run(strings(&["rev-parse", "HEAD"])));
    assert_eq!(
        current_git_head_sha(Some(Ok(output(0, "abc\n", "")))),
        GitExchange::Finished(Ok("abc".to_string()))
    );
    assert_eq!(
        push_quick_fix_branch("/w", "codex/b", None),
        GitExchange::Run(strings(&["-C", "/w", "push", "-u", "origin", "codex/b"]))
    );
    assert_eq!(
        push_quick_fix_branch("/w", "codex/b", Some(Ok(output(0, "", "")))),
        GitExchange::Finished(Ok(()))
    );
    assert_eq!(
        create_quick_fix_worktree("/w", "codex/b", "abc", None),
        GitExchange::Run(strings(&["worktree", "add", "-b", "codex/b", "/w", "abc"]))
    );
}

#[test]
fn commit_flow_stages_checks_commits_and_reads_head() {
    let item = build_triage_items(vec![review("C1", "nit: typo")], Vec::new(), false).remove(0);
    let (mut flow, first) = commit_quick_fix_changes("o/r", 5, &item, "codex/b", "/w");
    assert_eq!(first, strings(&["-C", "/w", "add", "-A"]));
    assert_eq!(flow.message, "process: quick fix for PR #5 comment C1");
    let step = advance_commit(&mut flow, Ok(output(0, "", "")));
    assert_eq!(step, GitExchange::Run(strings(&["-C", "/w", "diff", "--cached", "--quiet"])));
    let step = advance_commit(&mut flow, Ok(output(1, "", "")));
    assert_eq!(
        step,
        GitExchange::Run(strings(&["-C", "/w", "commit", "-m", "process: quick fix for PR #5 comment C1"]))
    );
    let step = advance_commit(&mut flow, Ok(output(0, "", "")));
    assert_eq!(step, GitExchange::Run(strings(&["-C", "/w", "rev-parse", "HEAD"])));
    match advance_commit(&mut flow, Ok(output(0, "deadbeef\n", ""))) {
        GitExchange::Finished(Ok(meta)) => {
            assert_eq!(meta.branch_name, "codex/b");
            assert_eq!(meta.commit_sha, "deadbeef");
            assert_eq!(meta.commit_url, "https://github.com/o/r/commit/deadbeef");
        }
        other => panic!("unexpected {other:?}"),
    }
}

#[test]
fn commit_flow_without_changes_fails() {
    let (mut flow, _) = commit_issue_watch_quick_fix_changes("o/r", &issue(9, "t", &[]), "b", "/w");
    assert_eq!(flow.message, "process: quick fix for issue #9");
    let _ = advance_commit(&mut flow, Ok(output(0, "", "")));
    assert_eq!(flow.stage, CommitStage::CheckingStaged);
    assert_eq!(
        advance_commit(&mut flow, Ok(output(0, "", ""))),
        GitExchange::Finished(Err("no changes were produced to commit".to_string()))
    );
}

#[test]
fn isolated_quick_fix_runs_worktree_fix_commit_and_push() {
    let item = build_triage_items(vec![review("C1", "nit: typo")], Vec::new(), false).remove(0);
    let (mut flow, action) = run_quick_fix_item_in_isolated_branch("o/r", 5, &item, "base", "/runs/1/wt");
    assert_eq!(flow.branch_name, "process/quick-fix-pr-5-c1");
    assert_eq!(flow.worktree_dir, "/runs/1/wt/process__quick-fix-pr-5-c1");
    assert_eq!(
        action,
        IsolatedAction::CreateWorktree {
            worktree_dir: "/runs/1/wt/process__quick-fix-pr-5-c1".to_string(),
            args: strings(&["worktree", "add", "-b", "process/quick-fix-pr-5-c1", "/runs/1/wt/process__quick-fix-pr-5-c1", "base"]),
        }
    );
    let action = advance_isolated_quick_fix(&mut flow, IsolatedEvent::GitRan(Ok(output(0, "", ""))));
    assert!(matches!(action, IsolatedAction::RunQuickFix { .. }));
    let action = advance_isolated_quick_fix(
        &mut flow,
        IsolatedEvent::QuickFixRan(SubprocessOutcome::Finished(output(0, "SUMMARY: done\n", ""))),
    );
    assert_eq!(action, IsolatedAction::Git(strings(&["-C", "/runs/1/wt/process__quick-fix-pr-5-c1", "add", "-A"])));
    let _ = advance_isolated_quick_fix(&mut flow, IsolatedEvent::GitRan(Ok(output(0, "", ""))));
    let _ = advance_isolated_quick_fix(&mut flow, IsolatedEvent::GitRan(Ok(output(1, "", ""))));
    let _ = advance_isolated_quick_fix(&mut flow, IsolatedEvent::GitRan(Ok(output(0, "", ""))));
    let action = advance_isolated_quick_fix(&mut flow, IsolatedEvent::GitRan(Ok(output(0, "cafe\n", ""))));
    assert_eq!(
        action,
        IsolatedAction::Git(strings(&["-C", "/runs/1/wt/process__quick-fix-pr-5-c1", "push", "-u", "origin", "process/quick-fix-pr-5-c1"]))
    );
    let action = advance_isolated_quick_fix(&mut flow, IsolatedEvent::GitRan(Ok(output(0, "", ""))));
    assert_eq!(action, IsolatedAction::Finished);
    assert_eq!(flow.stage, IsolatedStage::Finished);
    let e = &flow.execution;
    assert!(e.success);
    assert_eq!(e.summary.as_deref(), Some("done"));
    assert_eq!(e.commit_sha.as_deref(), Some("cafe"));
    assert_eq!(e.commit_url.as_deref(), Some("https://github.com/o/r/commit/cafe"));
    assert_eq!(e.pushed, Some(true));
    assert_eq!(e.remote_branch.as_deref(), Some("process/quick-fix-pr-5-c1"));
}

#[test]
fn isolated_quick_fix_failures() {
    let item = build_triage_items(vec![review("C1", "nit: typo")], Vec::new(), false).remove(0);
    let (mut flow, _) = run_quick_fix_item_in_isolated_branch("o/r", 5, &item, "base", "wt/");
    assert_eq!(flow.worktree_dir, "wt/process__quick-fix-pr-5-c1");
    let action = advance_isolated_quick_fix(&mut flow, IsolatedEvent::DirectoryFailed("read-only".to_string()));
    assert_eq!(action, IsolatedAction::Finished);
    assert!(!flow.execution.attempted);
    assert_eq!(
        flow.execution.error.as_deref(),
        Some("Unable to create isolated worktree for quick-fix item C1: read-only")
    );
    assert_eq!(flow.execution.branch_name.as_deref(), Some("process/quick-fix-pr-5-c1"));

    let watched = issue(12, "Fix typo", &[]);
    let (mut flow, _) = run_issue_watch_quick_fix_in_isolated_branch("o/r", &watched, "base", "wt", "1700");
    let _ = advance_isolated_quick_fix(&mut flow, IsolatedEvent::GitRan(Ok(output(0, "", ""))));
    let _ = advance_isolated_quick_fix(&mut flow, IsolatedEvent::QuickFixRan(SubprocessOutcome::Finished(output(0, "", ""))));
    let _ = advance_isolated_quick_fix(&mut flow, IsolatedEvent::GitRan(Ok(output(0, "", ""))));
    let action = advance_isolated_quick_fix(&mut flow, IsolatedEvent::GitRan(Ok(output(0, "", ""))));
    assert_eq!(action, IsolatedAction::Finished);
    assert!(!flow.execution.success);
    assert_eq!(
        flow.execution.error.as_deref(),
        Some("Issue quick-fix commit step failed for issue #12: no changes were produced to commit")
    );
}

#[test]
fn push_failure_differs_for_comments_and_issues() {
    let item = build_triage_items(vec![review("C1", "nit: typo")], Vec::new(), false).remove(0);
    let (mut flow, _) = run_quick_fix_item_in_isolated_branch("o/r", 5, &item, "base", "wt");
    flow.stage = IsolatedStage::Pushing;
    flow.execution = successful_execution("process/quick-fix-pr-5-c1");
    flow.execution.pushed = None;
    let _ = advance_isolated_quick_fix(&mut flow, IsolatedEvent::GitRan(Ok(output(1, "", "denied"))));
    assert!(flow.execution.success);
    assert_eq!(flow.execution.pushed, Some(false));
    assert_eq!(flow.execution.pr_error.as_deref(), Some("Skipped PR creation because branch push failed."));

    let watched = issue(12, "Fix typo", &[]);
    let (mut flow, _) = run_issue_watch_quick_fix_in_isolated_branch("o/r", &watched, "base", "wt", "1700");
    flow.stage = IsolatedStage::Pushing;
    flow.execution = successful_execution("b");
    let _ = advance_isolated_quick_fix(&mut flow, IsolatedEvent::GitRan(Ok(output(1, "", "denied"))));
    assert!(!flow.execution.success);
    assert_eq!(
        flow.execution.error.as_deref(),
        Some(format!("Issue quick-fix push failed for issue #12: `git -C wt/{} push -u origin {}` failed with status exit status: 1: denied", codex_process::quick_fix::quick_fix_worktree_dir_name(&flow.branch_name), flow.branch_name).as_str())
    );
}

// ---------------------------------------------------------------------------
// pr-comments --act
// ---------------------------------------------------------------------------

/// One step of the run, then `Continue` past every item that needed no
/// outside action.
fn pr_step(run: &mut codex_process::pr_comments::PrCommentsAct, event: PrCommentsEvent) -> PrCommentsAction {
    let mut action = process_mode_pr_comments(run, event);
    while action == PrCommentsAction::NextItem {
        action = process_mode_pr_comments(run, PrCommentsEvent::Continue);
    }
    action
}

fn pr_run(dry_run: bool, cap: Option<usize>) -> codex_process::pr_comments::PrCommentsAct {
    start_pr_comments_act(
        "o/r".to_string(),
        5,
        dry_run,
        cap,
        vec![review("R1", "nit: rename this"), review("R2", "Could we follow up on this later?")],
        vec![conversation("I1", "Why is this needed?")],
        None,
        Ok("base".to_string()),
        None,
    )
}

#[test]
fn pr_comments_triage_items_and_counts() {
    let run = pr_run(false, None);
    assert_eq!(run.items.len(), 3);
    assert_eq!(run.items[0].source, "review_comment");
    assert_eq!(run.items[2].source, "issue_comment");
    assert_eq!(run.items[2].review_thread_id, None);
    assert_eq!(run.items[0].decision, TriageDecision::QuickFix);
    assert_eq!(run.items[1].decision, TriageDecision::NeedsIssue);
    assert_eq!(run.items[2].decision, TriageDecision::Question);
    let counts = triage_counts(&run.items);
    assert_eq!((counts.quick_fix, counts.needs_issue, counts.question), (1, 1, 1));
    let g = grouped_by_type(2, 1);
    assert_eq!((g.unresolved_review_comments, g.open_issue_comments, g.total), (2, 1, 3));
}

#[test]
fn pr_comments_dry_run_changes_nothing() {
    let mut run = pr_run(true, None);
    let before: Vec<ProcessCommentTriageItem> = run.items.clone();
    let action = pr_step(&mut run, PrCommentsEvent::Continue);
    assert_eq!(action, PrCommentsAction::Done);
    assert_eq!(run.items, before);
    assert_eq!(run.mutation_count, 0);
    assert_eq!(run.next_item, 3);
    assert!(run.created_issues.is_empty());
    assert_eq!(run.pr_update_comment_url, None);
}

#[test]
fn pr_comments_question_settles_in_one_step() {
    let mut run = start_pr_comments_act(
        "o/r".to_string(),
        5,
        false,
        None,
        Vec::new(),
        vec![conversation("I1", "Why is this needed?")],
        None,
        Ok("base".to_string()),
        None,
    );
    let a = process_mode_pr_comments(&mut run, PrCommentsEvent::Continue);
    assert_eq!(a, PrCommentsAction::NextItem);
    assert_eq!(run.next_item, 1);
    assert_eq!(run.mutation_count, 0);
    let a = process_mode_pr_comments(&mut run, PrCommentsEvent::Continue);
    assert_eq!(a, PrCommentsAction::Done);
    assert_eq!(run.pr_update_comment_url, None);
}

#[test]
fn pr_comments_follow_up_pr_targets_source_base_branch() {
    let mut run = start_pr_comments_act(
        "o/r".to_string(),
        5,
        false,
        None,
        vec![review("R1", "nit: rename this")],
        Vec::new(),
        None,
        Ok("base".to_string()),
        Some("develop".to_string()),
    );
    let a = process_mode_pr_comments(&mut run, PrCommentsEvent::Continue);
    assert_eq!(a, PrCommentsAction::RunQuickFix { item_index: 0, base_sha: "base".to_string() });
    let a = process_mode_pr_comments(&mut run, PrCommentsEvent::QuickFixFinished(successful_execution("b")));
    match a {
        PrCommentsAction::CreateFollowUpPr { base_branch, head_branch, .. } => {
            assert_eq!(base_branch, "develop");
            assert_eq!(head_branch, "b");
        }
        other => panic!("unexpected {other:?}"),
    }
}

#[test]
fn pr_comments_act_runs_quick_fix_pr_thread_issue_and_update() {
    let mut run = pr_run(false, None);
    let a = pr_step(&mut run, PrCommentsEvent::Continue);
    assert_eq!(a, PrCommentsAction::RunQuickFix { item_index: 0, base_sha: "base".to_string() });
    let a = pr_step(&mut run, PrCommentsEvent::QuickFixFinished(successful_execution("process/quick-fix-pr-5-r1")));
    match &a {
        PrCommentsAction::CreateFollowUpPr { base_branch, head_branch, title, .. } => {
            assert_eq!(base_branch, "main");
            assert_eq!(head_branch, "process/quick-fix-pr-5-r1");
            assert_eq!(title, "process: quick fix for PR #5 comment R1");
        }
        other => panic!("unexpected {other:?}"),
    }
    let a = pr_step(
        &mut run,
        PrCommentsEvent::FollowUpPrFinished(Ok("https://github.com/o/r/pull/77".to_string())),
    );
    assert_eq!(a, PrCommentsAction::ResolveThread { thread_id: "T_R1".to_string() });
    let a = pr_step(&mut run, PrCommentsEvent::ThreadResolutionFinished(Ok(())));
    match &a {
        PrCommentsAction::CreateIssue { title, .. } => {
            assert_eq!(title, "Follow-up from PR #5 comment by alice: Could we follow up on this later?")
        }
        other => panic!("unexpected {other:?}"),
    }
    let a = pr_step(&mut run, PrCommentsEvent::IssueCreated("https://github.com/o/r/issues/78\n".to_string()));
    match &a {
        PrCommentsAction::PostUpdateComment { body } => assert!(body.contains("follow-up PR: [#77](https://github.com/o/r/pull/77)")),
        other => panic!("unexpected {other:?}"),
    }
    let a = pr_step(&mut run, PrCommentsEvent::UpdateCommentPosted("https://github.com/o/r/pull/5#issuecomment-1".to_string()));
    assert_eq!(a, PrCommentsAction::Done);
    assert_eq!(run.stage, PrCommentsStage::Done);
    assert_eq!(run.mutation_count, 5);
    assert_eq!(run.items[0].quick_fix_pr_number, Some(77));
    assert_eq!(run.items[0].quick_fix_thread_resolved, Some(true));
    assert_eq!(run.items[1].created_issue_url.as_deref(), Some("https://github.com/o/r/issues/78"));
    assert_eq!(run.created_issues.len(), 1);
    assert_eq!(run.successful_quick_fixes.len(), 1);
    assert_eq!(run.pr_update_comment_url.as_deref(), Some("https://github.com/o/r/pull/5#issuecomment-1"));
}

#[test]
fn pr_comments_cap_skips_and_records_reasons() {
    let mut run = pr_run(false, Some(1));
    let a = pr_step(&mut run, PrCommentsEvent::Continue);
    assert!(matches!(a, PrCommentsAction::RunQuickFix { .. }));
    let a = pr_step(&mut run, PrCommentsEvent::QuickFixFinished(successful_execution("b")));
    assert_eq!(a, PrCommentsAction::Done);
    assert_eq!(run.mutation_count, 1);
    assert_eq!(
        run.items[0].quick_fix_pr_error.as_deref(),
        Some("Skipped follow-up PR creation: max mutations-per-run cap reached.")
    );
    assert_eq!(
        run.items[1].skipped_reasons,
        vec![ProcessMutationSkipReason::MaxMutationsPerRunReached]
    );
    assert_eq!(run.items[1].planned_action, "Skipped: max mutations-per-run cap reached.");
    assert_eq!(
        run.items[1].todo.as_deref(),
        Some("TODO: manual follow-up issue for comment R2 (https://github.com/o/r/pull/5#R2)")
    );
    assert_eq!(
        run.items[0].skipped_reasons,
        vec![
            ProcessMutationSkipReason::MaxMutationsPerRunReached,
            ProcessMutationSkipReason::MaxMutationsPerRunReached,
        ]
    );
}

#[test]
fn pr_comments_without_base_sha_fails_quick_fixes() {
    let mut run = start_pr_comments_act(
        "o/r".to_string(),
        5,
        false,
        None,
        vec![review("R1", "nit: rename this")],
        Vec::new(),
        None,
        Err("no HEAD".to_string()),
        None,
    );
    let a = pr_step(&mut run, PrCommentsEvent::Continue);
    assert_eq!(a, PrCommentsAction::Done);
    assert_eq!(run.items[0].quick_fix_success, Some(false));
    assert_eq!(
        run.items[0].quick_fix_error.as_deref(),
        Some("Unable to read current git HEAD for quick-fix branching: no HEAD")
    );
    assert_eq!(
        run.items[0].todo.as_deref(),
        Some("TODO: manual quick fix for comment R1 (https://github.com/o/r/pull/5#R1)")
    );
}

#[test]
fn pr_comments_issue_without_url_fails_the_run() {
    let mut run = start_pr_comments_act(
        "o/r".to_string(),
        5,
        false,
        None,
        vec![review("R2", "Let's do this in a follow-up.")],
        Vec::new(),
        None,
        Ok("base".to_string()),
        None,
    );
    let a = pr_step(&mut run, PrCommentsEvent::Continue);
    assert!(matches!(a, PrCommentsAction::CreateIssue { .. }));
    let a = pr_step(&mut run, PrCommentsEvent::IssueCreated("ok".to_string()));
    assert_eq!(
        a,
        PrCommentsAction::Fail("`gh issue create` succeeded but did not return an issue URL: ok".to_string())
    );
}

#[test]
fn commit_sha_sliceable_checks_the_twelfth_byte() {
    assert!(commit_sha_sliceable("0123456789abcdef"));
    assert!(commit_sha_sliceable("short"));
    assert!(!commit_sha_sliceable("0123456789aé"));
}

// ---------------------------------------------------------------------------
// issues watch --act
// ---------------------------------------------------------------------------

fn watched(issue: ProcessWatchIssueCandidate, label: Option<&str>, cap: Option<usize>) -> codex_process::issues_watch::WatchedIssueAct {
    start_watched_issue_act(
        "o/r".to_string(),
        issue,
        label.map(str::to_string),
        cap,
        None,
        Ok("base".to_string()),
        "main".to_string(),
    )
}

#[test]
fn watched_issue_without_confirm_label_is_skipped() {
    let counter = AtomicUsize::new(0);
    let mut act = watched(issue(4, "Fix typo in docs", &["bug"]), Some("codex-ok"), None);
    let step = act_on_watched_issue(&mut act, WatchedIssueEvent::Continue, &counter);
    assert_eq!(step, WatchedIssueStep::Done);
    assert_eq!(act.action.skipped_reasons, vec![ProcessMutationSkipReason::ConfirmLabelMissing]);
    assert_eq!(act.action.error.as_deref(), Some("Skipped: issue does not include label `codex-ok`."));
    assert_eq!(
        act.action.planned_action,
        "Skipped: required confirmation label is missing on this issue."
    );
    assert_eq!(counter.load(std::sync::atomic::Ordering::Relaxed), 0);
}

#[test]
fn watched_issue_needing_manual_follow_up_gets_a_comment() {
    let counter = AtomicUsize::new(0);
    let mut act = watched(issue(4, "Redesign the scheduler", &[]), None, None);
    assert_eq!(act.action.decision, IssueWatchDecision::NeedsManual);
    let step = act_on_watched_issue(&mut act, WatchedIssueEvent::Continue, &counter);
    match &step {
        WatchedIssueStep::PostComment { body } => assert!(body.contains("Manual follow-up needed: Triaged as needs_manual")),
        other => panic!("unexpected {other:?}"),
    }
    let step = act_on_watched_issue(
        &mut act,
        WatchedIssueEvent::CommentPosted(Ok("https://github.com/o/r/issues/4#issuecomment-9".to_string())),
        &counter,
    );
    assert_eq!(step, WatchedIssueStep::Done);
    assert_eq!(act.action.update_comment_url.as_deref(), Some("https://github.com/o/r/issues/4#issuecomment-9"));
    assert_eq!(
        act.action.error.as_deref(),
        Some("Triaged as needs_manual for human follow-up (scope or risk is non-trivial).")
    );
}

#[test]
fn watched_issue_quick_fix_runs_to_pull_request_and_comment() {
    let counter = AtomicUsize::new(0);
    let mut act = watched(issue(6, "Fix typo in README", &[]), None, Some(10));
    assert_eq!(act.action.decision, IssueWatchDecision::QuickFix);
    let step = act_on_watched_issue(&mut act, WatchedIssueEvent::Continue, &counter);
    assert_eq!(step, WatchedIssueStep::RunQuickFix { base_sha: "base".to_string() });
    let step = act_on_watched_issue(&mut act, WatchedIssueEvent::QuickFixFinished(successful_execution("codex/issue-6")), &counter);
    match &step {
        WatchedIssueStep::CreateFollowUpPr { title, head_branch, base_branch, .. } => {
            assert_eq!(title, "process: quick fix for issue #6");
            assert_eq!(head_branch, "codex/issue-6");
            assert_eq!(base_branch, "main");
        }
        other => panic!("unexpected {other:?}"),
    }
    let step = act_on_watched_issue(
        &mut act,
        WatchedIssueEvent::FollowUpPrFinished(Ok("https://github.com/o/r/pull/90".to_string())),
        &counter,
    );
    match &step {
        WatchedIssueStep::PostComment { body } => assert!(body.contains("- Follow-up PR: [#90](https://github.com/o/r/pull/90)")),
        other => panic!("unexpected {other:?}"),
    }
    let step = act_on_watched_issue(&mut act, WatchedIssueEvent::CommentPosted(Err("gh down".to_string())), &counter);
    assert_eq!(step, WatchedIssueStep::Done);
    assert_eq!(act.stage, WatchedIssueStage::Done);
    assert!(act.action.success);
    assert_eq!(act.action.pr_number, Some(90));
    assert_eq!(
        act.action.error.as_deref(),
        Some("Quick fix completed, but failed to post issue update comment: gh down")
    );
    assert_eq!(counter.load(std::sync::atomic::Ordering::Relaxed), 3);
}

#[test]
fn watched_issue_pr_failure_fails_the_fix_and_reports_it() {
    let counter = AtomicUsize::new(0);
    let mut act = watched(issue(6, "Fix typo in README", &[]), None, None);
    let _ = act_on_watched_issue(&mut act, WatchedIssueEvent::Continue, &counter);
    let _ = act_on_watched_issue(&mut act, WatchedIssueEvent::QuickFixFinished(successful_execution("b")), &counter);
    let step = act_on_watched_issue(&mut act, WatchedIssueEvent::FollowUpPrFinished(Err("403".to_string())), &counter);
    match &step {
        WatchedIssueStep::PostComment { body } => {
            assert!(body.contains("Manual follow-up needed: Issue quick-fix PR creation failed for issue #6: 403"))
        }
        other => panic!("unexpected {other:?}"),
    }
    assert!(!act.action.success);
}

#[test]
fn watched_issue_cap_skips_the_quick_fix() {
    let counter = AtomicUsize::new(2);
    let mut act = watched(issue(6, "Fix typo in README", &[]), None, Some(2));
    let step = act_on_watched_issue(&mut act, WatchedIssueEvent::Continue, &counter);
    assert_eq!(step, WatchedIssueStep::Done);
    assert_eq!(act.action.skipped_reasons, vec![ProcessMutationSkipReason::MaxMutationsPerRunReached]);
    assert_eq!(act.action.error.as_deref(), Some("Skipped quick-fix mutation due to max mutation cap."));
}

#[test]
fn issues_watch_plan_entries_workers_and_counts() {
    let issues = vec![issue(1, "Fix typo", &[]), issue(2, "Redesign", &[]), issue(3, "Fix link", &[])];
    let entries = watch_issue_entries(&issues);
    assert_eq!(entries.len(), 3);
    assert_eq!(entries[1].number, 2);
    let plan = build_process_issues_watch_act_queue_plan(3, Some(2));
    let planned = planned_issue_actions(&issues, &plan, true);
    assert!(planned[0].is_some() && planned[1].is_some());
    let skipped = planned[2].as_ref().expect("skipped issue");
    assert_eq!(skipped.skipped_reasons, vec![ProcessMutationSkipReason::MaxActItemsCapReached]);
    assert_eq!(skipped.planned_action, "Skipped: max act-items cap reached before this queued issue.");
    let not_dry = planned_issue_actions(&issues, &plan, false);
    assert!(not_dry[0].is_none() && not_dry[1].is_none() && not_dry[2].is_some());
    assert_eq!(worker_count(4, 2), 2);
    assert_eq!(worker_count(40, 100), 16);
    assert_eq!(worker_count(0, 5), 1);
    let actions: Vec<ProcessIssuesWatchActIssueAction> = collect_issue_actions(planned);
    assert_eq!(actions.len(), 3);
    assert_eq!(actions[2].skipped_reasons, vec![ProcessMutationSkipReason::MaxActItemsCapReached]);
    let counts = issues_watch_act_counts(&actions);
    assert_eq!((counts.skipped, counts.success, counts.attempted), (1, 0, 0));
    let waiting = collect_issue_actions(not_dry);
    assert_eq!(waiting.len(), 1);
    assert_eq!(waiting[0].issue_number, issues[2].number);
}

#[test]
fn issues_watch_act_queue_is_empty_in_a_dry_run() {
    let issues = vec![issue(1, "Fix typo", &[]), issue(2, "Redesign", &[]), issue(3, "Fix link", &[])];
    let plan = build_process_issues_watch_act_queue_plan(issues.len(), Some(2));
    assert!(issues_watch_act_queue(&issues, &plan, true).is_empty());
    let queue = issues_watch_act_queue(&issues, &plan, false);
    assert_eq!(queue.len(), 2);
    assert_eq!(queue[0].0, 0);
    assert_eq!(queue[1].0, 1);
    assert_eq!(queue[1].1, issues[1]);
}

#[test]
fn update_comment_needs_sliceable_shas_only_when_due() {
    let mut run = pr_run(false, None);
    assert!(update_comment_body_ready(&run));
    let mut fix = codex_process::model::QuickFixSummary {
        comment_id: "R1".to_string(),
        summary: "done".to_string(),
        files: Vec::new(),
        verification: None,
        commit_sha: Some("0123456789aé".to_string()),
        commit_url: None,
        follow_up_pr_url: None,
        follow_up_pr_number: None,
        thread_resolved: None,
        thread_resolve_error: None,
    };
    run.successful_quick_fixes.push(fix.clone());
    assert!(!summaries_sha_sliceable(&run.successful_quick_fixes));
    assert!(update_comment_body_ready(&run));
    run.next_item = run.items.len();
    assert!(!update_comment_body_ready(&run));
    run.max_mutations_per_run = Some(0);
    assert!(update_comment_body_ready(&run));
    fix.commit_sha = Some("0123456789abcdef".to_string());
    run.successful_quick_fixes = vec![fix];
    run.max_mutations_per_run = None;
    assert!(update_comment_body_ready(&run));
}
