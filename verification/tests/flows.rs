use codex_process::gh_requests::{
    fetch_issue_comments, fetch_open_issues_by_label, fetch_pr_base_branch_name,
    fetch_repo_default_branch_name, fetch_unresolved_review_comments, follow_up_issue_created,
    follow_up_pr_created, format_follow_up_issue_title, issue_comment_request,
    issue_create_request, pr_comment_request, pr_create_request, resolve_review_thread,
    review_threads_query, unresolved_review_comments_args, GhExchange, GhIssueLabel,
    GhIssueListItem, GhPrBaseRefResponse, GhRepoDefaultBranchRef, GhRepoViewResponse,
    ReviewCommentsFetch, ReviewCommentsStep,
};
use codex_process::gh_retry::{
    run_gh_command_with_retry, start_gh_command, GhAttemptAction, GhRetryConfig,
};
use codex_process::process_io::{
    ensure_clean_git_worktree_for_mutations, git_has_staged_changes, run_gh_text_command,
    run_git_text_command, LaunchFailure, ProcessOutput,
};
use codex_process::process_runs::{
    artifact_status_line, latest_run_id, no_process_runs_message, process_run_artifact_names,
    process_run_summary, run_dir, run_not_found_message,
};
use codex_process::responses::{
    GhActor, GhGraphQlData, GhGraphQlError, GhGraphQlResponse, GhIssueCommentNode,
    GhIssueCommentUser, GhIssueCommentsResponse, GhPageInfo, GhPullRequest, GhRepository,
    GhResolveReviewThreadData, GhResolveReviewThreadNode, GhResolveReviewThreadPayload,
    GhResolveReviewThreadResponse, GhReviewCommentConnection, GhReviewCommentNode,
    GhReviewThreadConnection, GhReviewThreadNode,
};

fn output(code: i32, stdout: &str, stderr: &str) -> ProcessOutput {
    ProcessOutput {
        exit_code: Some(code),
        success: code == 0,
        status: format!("exit status: {code}"),
        stdout: stdout.as_bytes().to_vec(),
        stderr: stderr.as_bytes().to_vec(),
    }
}

fn not_found() -> LaunchFailure {
    LaunchFailure { not_found: true, message: "No such file or directory (os error 2)".to_string() }
}

fn strings(items: &[&str]) -> Vec<String> {
    items.iter().map(|s| s.to_string()).collect()
}

// ---------------------------------------------------------------------------
// Subprocess outputs
// ---------------------------------------------------------------------------

#[test]
fn run_git_text_command_trims_successful_output() {
    let args = strings(&["rev-parse", "HEAD"]);
    let r = run_git_text_command(&args, Ok(output(0, "  abc123\n", "")));
    assert_eq!(r, Ok("abc123".to_string()));
}

#[test]
fn run_git_text_command_reports_failures() {
    let args = strings(&["push", "-u", "origin", "b"]);
    let r = run_git_text_command(&args, Ok(output(1, "", " rejected \n")));
    assert_eq!(
        r,
        Err("`git push -u origin b` failed with status exit status: 1: rejected".to_string())
    );
    let r = run_git_text_command(&args, Ok(output(128, "", "")));
    assert_eq!(
        r,
        Err("`git push -u origin b` failed with status exit status: 128: no output captured".to_string())
    );
    assert_eq!(
        run_git_text_command(&args, Err(not_found())),
        Err("git is not available in PATH.".to_string())
    );
    let other = LaunchFailure { not_found: false, message: "denied".to_string() };
    assert_eq!(
        run_git_text_command(&args, Err(other)),
        Err("Failed to start `git`: denied".to_string())
    );
}

#[test]
fn run_git_text_command_rejects_non_utf8_output() {
    let args = strings(&["log"]);
    let mut o = output(0, "", "");
    o.stdout = vec![0xff, 0xfe];
    assert_eq!(
        run_git_text_command(&args, Ok(o)),
        Err("`git` returned non-UTF8 output".to_string())
    );
}

#[test]
fn git_has_staged_changes_reads_exit_codes() {
    assert_eq!(git_has_staged_changes(Ok(output(0, "", ""))), Ok(false));
    assert_eq!(git_has_staged_changes(Ok(output(1, "", ""))), Ok(true));
    assert_eq!(
        git_has_staged_changes(Ok(output(2, "out", " bad \n"))),
        Err("`git diff --cached --quiet` failed: bad".to_string())
    );
    assert_eq!(
        git_has_staged_changes(Ok(output(2, " out ", ""))),
        Err("`git diff --cached --quiet` failed: out".to_string())
    );
    assert_eq!(
        git_has_staged_changes(Err(not_found())),
        Err("git is not available in PATH. Install git before running process quick-fix actions.".to_string())
    );
}

#[test]
fn ensure_clean_git_worktree_for_mutations_refuses_dirty_worktrees() {
    assert_eq!(ensure_clean_git_worktree_for_mutations(Ok(output(0, "", ""))), Ok(()));
    assert_eq!(
        ensure_clean_git_worktree_for_mutations(Ok(output(0, " M src/lib.rs\n", ""))),
        Err("Guardrail `--require-clean-worktree` blocked mutations: found 1 uncommitted change(s):  M src/lib.rs".to_string())
    );
    assert_eq!(
        ensure_clean_git_worktree_for_mutations(Ok(output(128, "", "not a git repository"))),
        Err("`git status --porcelain` failed with status exit status: 128: not a git repository".to_string())
    );
}

#[test]
fn run_gh_text_command_trims_and_requires_utf8() {
    assert_eq!(
        run_gh_text_command(b"https://github.com/o/r/pull/1\n".to_vec()),
        Ok("https://github.com/o/r/pull/1".to_string())
    );
    assert_eq!(
        run_gh_text_command(vec![0xc3]),
        Err("`gh` returned non-UTF8 output".to_string())
    );
}

// ---------------------------------------------------------------------------
// gh with retries
// ---------------------------------------------------------------------------

fn retry_config(max_attempts: u32) -> GhRetryConfig {
    GhRetryConfig { max_attempts, base_backoff_ms: 500 }
}

#[test]
fn gh_retry_run_succeeds_after_a_transient_failure() {
    let args = strings(&["pr", "view"]);
    let (mut run, first) = start_gh_command(retry_config(3), &args);
    assert_eq!(first, GhAttemptAction::Attempt);
    assert_eq!(run.command_summary, "gh pr view");
    let action = run_gh_command_with_retry(&mut run, Ok(output(1, "", "HTTP 429: rate limit")), 0);
    assert_eq!(
        action,
        GhAttemptAction::RetryAfter {
            backoff_ms: 500,
            warning: "warning: gh pr view hit a transient GitHub failure (HTTP 429: rate limit); retrying attempt 2/3 in 500ms".to_string(),
        }
    );
    let action = run_gh_command_with_retry(&mut run, Ok(output(0, "{}", "")), 0);
    assert_eq!(action, GhAttemptAction::Succeeded);
    assert_eq!(run.attempts, 2);
}

#[test]
fn gh_retry_run_gives_up_after_max_transient_attempts() {
    let args = strings(&["api"]);
    let (mut run, _) = start_gh_command(retry_config(2), &args);
    let a1 = run_gh_command_with_retry(&mut run, Ok(output(1, "", "timeout")), 7);
    assert!(matches!(a1, GhAttemptAction::RetryAfter { .. }));
    let a2 = run_gh_command_with_retry(&mut run, Ok(output(1, "", "timeout")), 7);
    assert_eq!(
        a2,
        GhAttemptAction::Failed(
            "gh api failed after 2 attempts due to transient GitHub failures.\nattempt 1/2 failed with status exit status: 1: timeout\nattempt 2/2 failed with status exit status: 1: timeout\nCheck `gh auth status`; if rate-limited, wait and retry with `--gh-max-attempts` / `--gh-base-backoff-ms`.".to_string()
        )
    );
}

#[test]
fn gh_retry_run_stops_on_permanent_and_launch_failures() {
    let args = strings(&["api"]);
    let (mut run, _) = start_gh_command(retry_config(5), &args);
    let a = run_gh_command_with_retry(&mut run, Ok(output(1, "", "Not Found")), 0);
    assert_eq!(
        a,
        GhAttemptAction::Failed(
            "gh api failed with a non-retryable GitHub error after 1 attempt(s): Not Found\nCheck `gh auth status` and verify repo access.".to_string()
        )
    );
    let (mut run, _) = start_gh_command(retry_config(5), &args);
    let a = run_gh_command_with_retry(&mut run, Err(not_found()), 0);
    assert_eq!(
        a,
        GhAttemptAction::Failed(
            "GitHub CLI (`gh`) is not available in PATH. Install from https://cli.github.com/ and run `gh auth login`.".to_string()
        )
    );
}

#[test]
fn gh_retry_run_without_attempts_fails_at_once() {
    let args = strings(&["api"]);
    let (_, action) = start_gh_command(retry_config(0), &args);
    assert_eq!(
        action,
        GhAttemptAction::Failed("gh api failed before executing any attempt.".to_string())
    );
}

// ---------------------------------------------------------------------------
// gh requests
// ---------------------------------------------------------------------------

fn thread(id: &str, resolved: bool, comment_ids: &[&str]) -> GhReviewThreadNode {
    GhReviewThreadNode {
        id: id.to_string(),
        is_resolved: resolved,
        comments: GhReviewCommentConnection {
            nodes: comment_ids
                .iter()
                .map(|c| GhReviewCommentNode {
                    id: c.to_string(),
                    author: Some(GhActor { login: "alice".to_string() }),
                    path: "src/lib.rs".to_string(),
                    line: Some(1),
                    body: "fix".to_string(),
                    url: format!("https://github.com/o/r/pull/1#{c}"),
                })
                .collect(),
        },
    }
}

fn page(threads: Vec<GhReviewThreadNode>, has_next_page: bool, end_cursor: Option<&str>) -> GhGraphQlResponse {
    GhGraphQlResponse {
        data: Some(GhGraphQlData {
            repository: Some(GhRepository {
                pull_request: Some(GhPullRequest {
                    review_threads: GhReviewThreadConnection {
                        nodes: threads,
                        page_info: GhPageInfo { has_next_page, end_cursor: end_cursor.map(str::to_string) },
                    },
                }),
            }),
        }),
        errors: None,
    }
}

#[test]
fn review_comments_request_names_the_pull_request_and_cursor() {
    let args = unresolved_review_comments_args("openai", "codex", 12, Some("CUR"));
    assert_eq!(args.len(), 12);
    assert_eq!(args[0], "api");
    assert_eq!(args[1], "graphql");
    assert_eq!(args[3], format!("query={}", review_threads_query()));
    assert!(args[3].contains("reviewThreads(first: 100, after: $cursor)"));
    assert_eq!(&args[4..], &strings(&["-F", "owner=openai", "-F", "name=codex", "-F", "pr=12", "-F", "cursor=CUR"])[..]);
    assert_eq!(unresolved_review_comments_args("o", "n", 1, None).len(), 10);
}

#[test]
fn fetch_unresolved_review_comments_follows_pages() {
    let mut fetch = ReviewCommentsFetch {
        owner: "o".to_string(),
        name: "r".to_string(),
        pr: 1,
        comments: Vec::new(),
        cursor: None,
    };
    let first = fetch_unresolved_review_comments(&mut fetch, None);
    assert_eq!(first, ReviewCommentsStep::Request(unresolved_review_comments_args("o", "r", 1, None)));
    let next = fetch_unresolved_review_comments(
        &mut fetch,
        Some(page(vec![thread("T1", false, &["C1", "C2"]), thread("T2", true, &["C3"])], true, Some("NEXT"))),
    );
    assert_eq!(next, ReviewCommentsStep::Request(unresolved_review_comments_args("o", "r", 1, Some("NEXT"))));
    assert_eq!(fetch.cursor.as_deref(), Some("NEXT"));
    let done = fetch_unresolved_review_comments(&mut fetch, Some(page(vec![thread("T3", false, &["C4"])], false, None)));
    assert_eq!(done, ReviewCommentsStep::Done);
    let ids: Vec<&str> = fetch.comments.iter().map(|c| c.id.as_str()).collect();
    assert_eq!(ids, vec!["C1", "C2", "C4"]);
    assert_eq!(fetch.comments[2].review_thread_id.as_deref(), Some("T3"));
}

#[test]
fn fetch_unresolved_review_comments_fails_without_cursor_or_on_errors() {
    let mut fetch = ReviewCommentsFetch {
        owner: "o".to_string(),
        name: "r".to_string(),
        pr: 1,
        comments: Vec::new(),
        cursor: None,
    };
    let step = fetch_unresolved_review_comments(&mut fetch, Some(page(vec![], true, None)));
    assert_eq!(
        step,
        ReviewCommentsStep::Failed(
            "GitHub API returned pagination without a cursor for unresolved review comments.".to_string()
        )
    );
    let errors = GhGraphQlResponse {
        data: None,
        errors: Some(vec![GhGraphQlError { message: "boom".to_string() }]),
    };
    assert_eq!(
        fetch_unresolved_review_comments(&mut fetch, Some(errors)),
        ReviewCommentsStep::Failed("GitHub GraphQL returned errors: boom".to_string())
    );
}

#[test]
fn fetch_issue_comments_requests_every_page() {
    match fetch_issue_comments("o/r", 7, None) {
        GhExchange::Run(args) => {
            assert_eq!(args, strings(&["api", "repos/o/r/issues/7/comments", "--paginate", "--slurp"]))
        }
        other => panic!("unexpected {other:?}"),
    }
    let reply = GhIssueCommentsResponse::Flat(vec![GhIssueCommentNode {
        id: 99,
        user: GhIssueCommentUser { login: "bob".to_string() },
        body: "hi".to_string(),
        html_url: "https://github.com/o/r/pull/7#issuecomment-99".to_string(),
    }]);
    match fetch_issue_comments("o/r", 7, Some(reply)) {
        GhExchange::Finished(comments) => {
            assert_eq!(comments.len(), 1);
            assert_eq!(comments[0].id, "99");
            assert_eq!(comments[0].author, "bob");
        }
        other => panic!("unexpected {other:?}"),
    }
}

#[test]
fn fetch_open_issues_by_label_maps_issue_list() {
    match fetch_open_issues_by_label("o/r", "bug", 25, None) {
        GhExchange::Run(args) => assert_eq!(
            args,
            strings(&[
                "issue", "list", "--repo", "o/r", "--state", "open", "--label", "bug", "--limit", "25",
                "--json", "number,title,body,url,labels",
            ])
        ),
        other => panic!("unexpected {other:?}"),
    }
    let items = vec![GhIssueListItem {
        number: 3,
        title: "Typo".to_string(),
        body: None,
        url: "https://github.com/o/r/issues/3".to_string(),
        labels: vec![GhIssueLabel { name: "bug".to_string() }, GhIssueLabel { name: "easy".to_string() }],
    }];
    match fetch_open_issues_by_label("o/r", "bug", 25, Some(items)) {
        GhExchange::Finished(found) => {
            assert_eq!(found.len(), 1);
            assert_eq!(found[0].number, 3);
            assert_eq!(found[0].body, "");
            assert_eq!(found[0].labels, strings(&["bug", "easy"]));
        }
        other => panic!("unexpected {other:?}"),
    }
}

#[test]
fn branch_lookups_trim_or_drop_blank_names() {
    let reply = GhRepoViewResponse { default_branch_ref: Some(GhRepoDefaultBranchRef { name: "  trunk \n".to_string() }) };
    assert_eq!(fetch_repo_default_branch_name("o/r", Some(reply)), GhExchange::Finished(Some("trunk".to_string())));
    let blank = GhRepoViewResponse { default_branch_ref: Some(GhRepoDefaultBranchRef { name: "  ".to_string() }) };
    assert_eq!(fetch_repo_default_branch_name("o/r", Some(blank)), GhExchange::Finished(None));
    assert_eq!(
        fetch_repo_default_branch_name("o/r", None),
        GhExchange::Run(strings(&["repo", "view", "o/r", "--json", "defaultBranchRef"]))
    );
    assert_eq!(
        fetch_pr_base_branch_name("o/r", 5, None),
        GhExchange::Run(strings(&["pr", "view", "--repo", "o/r", "5", "--json", "baseRefName"]))
    );
    let base = GhPrBaseRefResponse { base_ref_name: "release".to_string() };
    assert_eq!(fetch_pr_base_branch_name("o/r", 5, Some(base)), GhExchange::Finished(Some("release".to_string())));
    let blank = GhPrBaseRefResponse { base_ref_name: " ".to_string() };
    assert_eq!(fetch_pr_base_branch_name("o/r", 5, Some(blank)), GhExchange::Finished(None));
}

#[test]
fn resolve_review_thread_requests_the_mutation_and_reads_the_reply() {
    match resolve_review_thread("PRRT_9", None) {
        GhExchange::Run(args) => {
            assert_eq!(args.len(), 6);
            assert!(args[3].starts_with("query=mutation($threadId: ID!)"));
            assert_eq!(args[5], "threadId=PRRT_9");
        }
        other => panic!("unexpected {other:?}"),
    }
    let reply = GhResolveReviewThreadResponse {
        data: Some(GhResolveReviewThreadData {
            resolve_review_thread: Some(GhResolveReviewThreadPayload {
                thread: Some(GhResolveReviewThreadNode { id: "PRRT_9".to_string(), is_resolved: true }),
            }),
        }),
        errors: None,
    };
    assert_eq!(resolve_review_thread("PRRT_9", Some(reply)), GhExchange::Finished(Ok(())));
}

#[test]
fn creation_requests_and_replies() {
    assert_eq!(
        pr_create_request("o/r", "main", "codex/x", "title", "/tmp/b.md"),
        strings(&["pr", "create", "--repo", "o/r", "--base", "main", "--head", "codex/x", "--title", "title", "--body-file", "/tmp/b.md"])
    );
    assert_eq!(
        pr_comment_request("o/r", 4, "/tmp/c.md"),
        strings(&["pr", "comment", "--repo", "o/r", "4", "--body-file", "/tmp/c.md"])
    );
    assert_eq!(
        issue_comment_request("o/r", 8, "/tmp/c.md"),
        strings(&["issue", "comment", "--repo", "o/r", "8", "--body-file", "/tmp/c.md"])
    );
    assert_eq!(
        issue_create_request("o/r", "t", "/tmp/i.md"),
        strings(&["issue", "create", "--repo", "o/r", "--title", "t", "--body-file", "/tmp/i.md"])
    );
    assert_eq!(
        follow_up_pr_created("Created https://github.com/o/r/pull/42"),
        Ok(("https://github.com/o/r/pull/42".to_string(), Some(42)))
    );
    assert_eq!(
        follow_up_pr_created("nothing"),
        Err("`gh pr create` succeeded but did not return a PR URL: nothing".to_string())
    );
    assert_eq!(
        follow_up_issue_created("https://github.com/o/r/issues/9\n"),
        Ok("https://github.com/o/r/issues/9".to_string())
    );
    assert_eq!(
        follow_up_issue_created("done"),
        Err("`gh issue create` succeeded but did not return an issue URL: done".to_string())
    );
}

#[test]
fn follow_up_issue_title_truncates_the_first_line() {
    assert_eq!(format_follow_up_issue_title(3, "alice", ""), "Follow-up from PR #3 comment by alice");
    assert_eq!(
        format_follow_up_issue_title(3, "alice", "  Please split this.  \nmore"),
        "Follow-up from PR #3 comment by alice: Please split this."
    );
    let long = "x".repeat(100);
    let title = format_follow_up_issue_title(3, "alice", &long);
    assert_eq!(title, format!("Follow-up from PR #3 comment by alice: {}", "x".repeat(80)));
}

// ---------------------------------------------------------------------------
// Process runs
// ---------------------------------------------------------------------------

#[test]
fn process_run_summary_and_status_lines() {
    assert_eq!(
        process_run_summary("1700", "ship it"),
        "# Process Run 1700\n\n- task: ship it\n- state: INTAKE\n- status: bootstrapped\n"
    );
    assert_eq!(
        process_run_artifact_names(),
        strings(&["contract.json", "red-proof.json", "verify.json", "traceability.json", "summary.md"])
    );
    assert_eq!(artifact_status_line("verify.json", true), "- verify.json: present");
    assert_eq!(artifact_status_line("summary.md", false), "- summary.md: missing");
    assert_eq!(run_dir("17"), ".process/runs/17");
    assert_eq!(no_process_runs_message(".process/runs"), "No process runs found in .process/runs");
    assert_eq!(run_not_found_message(".process/runs/9"), "Run not found: .process/runs/9");
}

#[test]
fn latest_run_id_picks_the_greatest_id() {
    assert_eq!(latest_run_id(&Vec::new()), None);
    assert_eq!(
        latest_run_id(&strings(&["1700000000002", "1700000000010", "1700000000001"])),
        Some("1700000000010".to_string())
    );
    assert_eq!(latest_run_id(&strings(&["b", "ab", "a"])), Some("b".to_string()));
}
