use codex_process::gh_retry::{
    gh_attempt_summary, gh_failure_details, gh_permanent_failure_message, gh_retry_backoff_ms,
    gh_retry_config, gh_retry_step, gh_retry_warning, gh_transient_exhausted_message,
    init_process_gh_retry_config, is_transient_gh_failure, summarize_gh_args, GhRetryConfig,
    GhRetryStep, ProcessGhRetryArgs, MAX_PROCESS_GH_BACKOFF_MS,
};
use codex_process::github::{
    extract_first_url, parse_gh_issue_comment_output, parse_gh_pr_create_output,
    parse_pr_number_from_text, parse_pr_number_from_url, parse_repo_owner_and_name,
    ParsedGhIssueCommentOutput, ParsedGhPrCreateOutput,
};
use codex_process::guardrails::{
    build_guardrail_settings, build_process_issues_watch_act_queue_plan,
    format_clean_worktree_guardrail_error, guardrail_summary_line, issue_has_confirm_label,
    parse_git_status_porcelain_entries, try_schedule_mutation, try_schedule_mutation_atomic,
    ProcessIssuesWatchActQueuePlan, ProcessIssuesWatchActQueueSkippedIssue,
    ProcessMutationSkipReason,
};
use codex_process::model::{
    GroupedByType, OpenIssueComment, ProcessCommentTriageItem, ProcessWatchIssue,
    ProcessWatchIssueCandidate, QuickFixSummary, UnresolvedReviewComment,
};
use codex_process::markdown::{
    format_follow_up_issue_body, format_issue_watch_follow_up_pr_body,
    format_issue_watch_manual_follow_up_comment, format_issue_watch_success_comment,
    format_pr_update_comment_body, format_quick_fix_follow_up_pr_body, short_commit_sha,
    suggest_issue_watch_actions, suggested_next_actions, to_markdown_blockquote,
};
use codex_process::quick_fix::{
    build_issue_watch_quick_fix_prompt, build_quick_fix_prompt, first_non_empty_line,
    issue_watch_quick_fix_branch_name, issue_watch_quick_fix_commit_message,
    parse_quick_fix_output, quick_fix_branch_name, quick_fix_commit_message,
    quick_fix_commit_url, quick_fix_worktree_dir_name, short_comment_id_for_branch,
    ParsedQuickFixOutput,
};
use codex_process::responses::{
    parse_issue_comments, parse_resolve_review_thread_response,
    parse_unresolved_review_comment_page, GhActor, GhGraphQlData, GhGraphQlError,
    GhGraphQlResponse, GhIssueCommentNode, GhIssueCommentUser, GhIssueCommentsResponse,
    GhPageInfo, GhPullRequest, GhRepository, GhResolveReviewThreadData,
    GhResolveReviewThreadNode, GhResolveReviewThreadPayload, GhResolveReviewThreadResponse,
    GhReviewCommentConnection, GhReviewCommentNode, GhReviewThreadConnection,
    GhReviewThreadNode,
};
use codex_process::triage::{
    classify_comment_triage, classify_issue_watch_triage, format_issues_watch_planned_action,
    format_pr_comments_planned_action, IssueWatchDecision, TriageDecision,
};
use std::sync::atomic::AtomicUsize;

fn candidate(number: u64, title: &str, body: &str, labels: &[&str]) -> ProcessWatchIssueCandidate {
    ProcessWatchIssueCandidate {
        number,
        title: title.to_string(),
        body: body.to_string(),
        url: format!("https://github.com/openai/codex-process/issues/{number}"),
        labels: labels.iter().map(|l| l.to_string()).collect(),
    }
}

#[test]
fn parse_repo_owner_and_name_accepts_valid_repo() {
    let parsed = parse_repo_owner_and_name("openai/codex").expect("repo parses");
    assert_eq!(parsed, ("openai".to_string(), "codex".to_string()));
}

#[test]
fn parse_repo_owner_and_name_rejects_invalid_repo() {
    let err = parse_repo_owner_and_name("openai").expect_err("repo should fail");
    assert_eq!(
        err.to_string(),
        "Invalid --repo value `openai`. Expected `owner/name`."
    );
}

#[test]
fn parse_repo_owner_and_name_rejects_too_many_path_segments() {
    let err = parse_repo_owner_and_name("openai/codex/extra").expect_err("repo should fail");
    assert_eq!(
        err.to_string(),
        "Invalid --repo value `openai/codex/extra`. Expected `owner/name`."
    );
}

#[test]
fn parse_repo_owner_and_name_rejects_empty_parts() {
    assert!(parse_repo_owner_and_name("/codex").is_err());
    assert!(parse_repo_owner_and_name("openai/").is_err());
}

fn review_comment(id: &str, author: Option<&str>, path: &str, line: u64, body: &str, url: &str) -> GhReviewCommentNode {
    GhReviewCommentNode {
        id: id.to_string(),
        author: author.map(|login| GhActor { login: login.to_string() }),
        path: path.to_string(),
        line: Some(line),
        body: body.to_string(),
        url: url.to_string(),
    }
}

fn graphql_page(threads: Vec<GhReviewThreadNode>, has_next_page: bool, end_cursor: Option<&str>) -> GhGraphQlResponse {
    GhGraphQlResponse {
        data: Some(GhGraphQlData {
            repository: Some(GhRepository {
                pull_request: Some(GhPullRequest {
                    review_threads: GhReviewThreadConnection {
                        nodes: threads,
                        page_info: GhPageInfo {
                            has_next_page,
                            end_cursor: end_cursor.map(str::to_string),
                        },
                    },
                }),
            }),
        }),
        errors: None,
    }
}

#[test]
fn parse_unresolved_review_comment_page_filters_out_resolved_threads() {
    let input = graphql_page(
        vec![
            GhReviewThreadNode {
                id: "PRRT_1".to_string(),
                is_resolved: false,
                comments: GhReviewCommentConnection {
                    nodes: vec![review_comment(
                        "PRRC_1",
                        Some("alice"),
                        "src/lib.rs",
                        42,
                        "Please simplify this branch.",
                        "https://github.com/openai/codex/pull/1#discussion_r1",
                    )],
                },
            },
            GhReviewThreadNode {
                id: "PRRT_2".to_string(),
                is_resolved: true,
                comments: GhReviewCommentConnection {
                    nodes: vec![review_comment(
                        "PRRC_2",
                        Some("bob"),
                        "src/main.rs",
                        7,
                        "Already fixed.",
                        "https://github.com/openai/codex/pull/1#discussion_r2",
                    )],
                },
            },
        ],
        false,
        None,
    );

    let parsed = parse_unresolved_review_comment_page(input).expect("parses");
    assert_eq!(
        parsed.comments,
        vec![UnresolvedReviewComment {
            id: "PRRC_1".to_string(),
            review_thread_id: Some("PRRT_1".to_string()),
            author: "alice".to_string(),
            path: "src/lib.rs".to_string(),
            line: Some(42),
            body: "Please simplify this branch.".to_string(),
            url: "https://github.com/openai/codex/pull/1#discussion_r1".to_string(),
        }]
    );
    assert!(!parsed.has_next_page);
    assert_eq!(parsed.end_cursor, None);
}

#[test]
fn parse_unresolved_review_comment_page_defaults_author_and_keeps_cursor() {
    let input = graphql_page(
        vec![GhReviewThreadNode {
            id: "PRRT_9".to_string(),
            is_resolved: false,
            comments: GhReviewCommentConnection {
                nodes: vec![
                    review_comment("PRRC_a", None, "a.rs", 1, "first", "u1"),
                    review_comment("PRRC_b", Some("zed"), "b.rs", 2, "second", "u2"),
                ],
            },
        }],
        true,
        Some("CURSOR"),
    );
    let parsed = parse_unresolved_review_comment_page(input).expect("parses");
    assert_eq!(parsed.comments.len(), 2);
    assert_eq!(parsed.comments[0].author, "unknown");
    assert_eq!(parsed.comments[1].author, "zed");
    assert_eq!(parsed.comments[1].review_thread_id.as_deref(), Some("PRRT_9"));
    assert!(parsed.has_next_page);
    assert_eq!(parsed.end_cursor.as_deref(), Some("CURSOR"));
}

#[test]
fn parse_unresolved_review_comment_page_reports_errors_and_missing_threads() {
    let err = parse_unresolved_review_comment_page(GhGraphQlResponse {
        data: None,
        errors: Some(vec![
            GhGraphQlError { message: "Bad".to_string() },
            GhGraphQlError { message: "Worse".to_string() },
        ]),
    })
    .expect_err("errors fail");
    assert_eq!(err, "GitHub GraphQL returned errors: Bad; Worse");

    let err = parse_unresolved_review_comment_page(GhGraphQlResponse {
        data: Some(GhGraphQlData { repository: None }),
        errors: Some(Vec::new()),
    })
    .expect_err("missing threads fail");
    assert_eq!(
        err,
        "GitHub GraphQL response did not include pull request review threads."
    );
}

fn issue_comment(id: u64, body: &str, url: &str, login: &str) -> GhIssueCommentNode {
    GhIssueCommentNode {
        id,
        body: body.to_string(),
        html_url: url.to_string(),
        user: GhIssueCommentUser { login: login.to_string() },
    }
}

#[test]
fn parse_issue_comments_supports_paginated_response() {
    let input = GhIssueCommentsResponse::Paged(vec![
        vec![issue_comment(
            101,
            "Can you add a test?",
            "https://github.com/openai/codex/issues/1#issuecomment-101",
            "carol",
        )],
        vec![issue_comment(
            202,
            "Looks good after updates.",
            "https://github.com/openai/codex/issues/1#issuecomment-202",
            "dave",
        )],
    ]);

    let parsed = parse_issue_comments(input);
    assert_eq!(
        parsed,
        vec![
            OpenIssueComment {
                id: "101".to_string(),
                author: "carol".to_string(),
                body: "Can you add a test?".to_string(),
                url: "https://github.com/openai/codex/issues/1#issuecomment-101".to_string(),
            },
            OpenIssueComment {
                id: "202".to_string(),
                author: "dave".to_string(),
                body: "Looks good after updates.".to_string(),
                url: "https://github.com/openai/codex/issues/1#issuecomment-202".to_string(),
            }
        ]
    );
}

#[test]
fn parse_issue_comments_supports_flat_response() {
    let parsed = parse_issue_comments(GhIssueCommentsResponse::Flat(vec![issue_comment(
        18446744073709551615,
        "max",
        "u",
        "e",
    )]));
    assert_eq!(parsed.len(), 1);
    assert_eq!(parsed[0].id, "18446744073709551615");
}

#[test]
fn suggested_next_actions_handles_empty_and_non_empty_states() {
    let empty = GroupedByType {
        unresolved_review_comments: 0,
        open_issue_comments: 0,
        total: 0,
    };
    assert_eq!(
        suggested_next_actions(&empty),
        vec!["No open comments found; proceed with final verification and merge checks.".to_string()]
    );

    let non_empty = GroupedByType {
        unresolved_review_comments: 1,
        open_issue_comments: 2,
        total: 3,
    };
    assert_eq!(
        suggested_next_actions(&non_empty),
        vec![
            "Address unresolved review comments first.".to_string(),
            "Reply to open issue comments on the PR conversation.".to_string(),
            "After fixes, rerun `codex process pr-comments --repo <owner/name> --pr <number>` to confirm all comments are addressed.".to_string(),
        ]
    );
}

#[test]
fn suggest_issue_watch_actions_lists_first_five_issues() {
    assert_eq!(
        suggest_issue_watch_actions(&[]),
        vec!["No matching open issues found.".to_string()]
    );
    let issues: Vec<ProcessWatchIssue> = (1..=7)
        .map(|n| ProcessWatchIssue {
            number: n,
            title: format!("t{n}"),
            url: format!("https://x/issues/{n}"),
        })
        .collect();
    let actions = suggest_issue_watch_actions(&issues);
    assert_eq!(actions.len(), 5);
    assert_eq!(actions[0], "Plan automation for issue #1 (https://x/issues/1)");
    assert_eq!(actions[4], "Plan automation for issue #5 (https://x/issues/5)");
}

#[test]
fn classify_comment_triage_prioritizes_needs_issue_keywords() {
    let decision =
        classify_comment_triage("This is out of scope for this PR, please open a follow-up.");
    assert_eq!(decision, TriageDecision::NeedsIssue);
}

#[test]
fn classify_comment_triage_detects_question() {
    let decision = classify_comment_triage("Can we simplify this flow?");
    assert_eq!(decision, TriageDecision::Question);
}

#[test]
fn classify_comment_triage_defaults_to_quick_fix() {
    let decision = classify_comment_triage("Please update this implementation detail.");
    assert_eq!(decision, TriageDecision::QuickFix);
}

#[test]
fn classify_comment_triage_is_case_insensitive_and_prefers_small_fixes_to_questions() {
    assert_eq!(classify_comment_triage("DEFER this"), TriageDecision::NeedsIssue);
    assert_eq!(classify_comment_triage("Typo here?"), TriageDecision::QuickFix);
    assert_eq!(classify_comment_triage("Why is this slow"), TriageDecision::Question);
    assert_eq!(classify_comment_triage("why"), TriageDecision::QuickFix);
}

#[test]
fn classify_issue_watch_triage_detects_small_change_keywords() {
    let decision = classify_issue_watch_triage(&ProcessWatchIssueCandidate {
        number: 10,
        title: "Fix typo in docs".to_string(),
        body: String::new(),
        url: "https://github.com/openai/codex-process/issues/10".to_string(),
        labels: vec!["process:auto-fix".to_string()],
    });
    assert_eq!(decision, IssueWatchDecision::QuickFix);
}

#[test]
fn classify_issue_watch_triage_defaults_to_needs_manual() {
    let decision = classify_issue_watch_triage(&ProcessWatchIssueCandidate {
        number: 11,
        title: "Refactor process engine".to_string(),
        body: "This likely spans multiple crates.".to_string(),
        url: "https://github.com/openai/codex-process/issues/11".to_string(),
        labels: vec!["process:auto-fix".to_string()],
    });
    assert_eq!(decision, IssueWatchDecision::NeedsManual);
}

#[test]
fn classify_issue_watch_triage_reads_the_body_too() {
    let issue = candidate(12, "Broken flow", "Update the README please", &[]);
    assert_eq!(classify_issue_watch_triage(&issue), IssueWatchDecision::QuickFix);
}

#[test]
fn build_process_issues_watch_act_queue_plan_acts_all_without_cap() {
    let plan = build_process_issues_watch_act_queue_plan(3, None);
    assert_eq!(
        plan,
        ProcessIssuesWatchActQueuePlan {
            acted_indices: vec![0, 1, 2],
            skipped: Vec::new(),
        }
    );
}

#[test]
fn build_process_issues_watch_act_queue_plan_skips_over_cap() {
    let plan = build_process_issues_watch_act_queue_plan(5, Some(2));
    assert_eq!(
        plan,
        ProcessIssuesWatchActQueuePlan {
            acted_indices: vec![0, 1],
            skipped: vec![
                ProcessIssuesWatchActQueueSkippedIssue {
                    issue_index: 2,
                    reason: ProcessMutationSkipReason::MaxActItemsCapReached,
                },
                ProcessIssuesWatchActQueueSkippedIssue {
                    issue_index: 3,
                    reason: ProcessMutationSkipReason::MaxActItemsCapReached,
                },
                ProcessIssuesWatchActQueueSkippedIssue {
                    issue_index: 4,
                    reason: ProcessMutationSkipReason::MaxActItemsCapReached,
                }
            ],
        }
    );
}

#[test]
fn build_process_issues_watch_act_queue_plan_with_cap_above_total() {
    let plan = build_process_issues_watch_act_queue_plan(2, Some(10));
    assert_eq!(plan.acted_indices, vec![0, 1]);
    assert!(plan.skipped.is_empty());
    let plan = build_process_issues_watch_act_queue_plan(0, Some(0));
    assert!(plan.acted_indices.is_empty() && plan.skipped.is_empty());
}

#[test]
fn parse_quick_fix_output_extracts_summary_files_and_verification() {
    let output = "SUMMARY: Rename local variable for clarity\nFILES: cli/src/main.rs, README.md\nVERIFICATION: not run";
    let parsed = parse_quick_fix_output(output);
    assert_eq!(
        parsed,
        ParsedQuickFixOutput {
            summary: Some("Rename local variable for clarity".to_string()),
            files: vec!["cli/src/main.rs".to_string(), "README.md".to_string()],
            verification: Some("not run".to_string()),
        }
    );
}

#[test]
fn parse_quick_fix_output_ignores_none_and_keeps_last_values() {
    let output = "noise\r\n  SUMMARY: first  \nSUMMARY: second\nFILES: NONE\nVERIFICATION: None\nFILES: a.rs, , b.rs ,\n";
    let parsed = parse_quick_fix_output(output);
    assert_eq!(parsed.summary.as_deref(), Some("second"));
    assert_eq!(parsed.files, vec!["a.rs".to_string(), "b.rs".to_string()]);
    assert_eq!(parsed.verification, None);
}

#[test]
fn first_non_empty_line_skips_blank_lines() {
    assert_eq!(first_non_empty_line("\n   \n  hello world \nnext"), Some("hello world".to_string()));
    assert_eq!(first_non_empty_line(" \n\t\n"), None);
}

#[test]
fn format_pr_comments_planned_action_mentions_dry_run_intent() {
    let planned = format_pr_comments_planned_action(TriageDecision::QuickFix, None, true);
    assert_eq!(
        planned,
        "Would run targeted quick-fix automation (codex subprocess + branch/commit/push + follow-up PR/comment updates).".to_string()
    );
}

#[test]
fn format_pr_comments_planned_action_covers_every_branch() {
    assert_eq!(
        format_pr_comments_planned_action(TriageDecision::NeedsIssue, None, false),
        "Plan: create a follow-up GitHub issue linked to the source comment."
    );
    assert_eq!(
        format_pr_comments_planned_action(TriageDecision::Question, None, true),
        "Would leave for human reply; no automation mutation."
    );
    assert_eq!(
        format_pr_comments_planned_action(
            TriageDecision::Question,
            Some(ProcessMutationSkipReason::MaxMutationsPerRunReached),
            true
        ),
        "Skipped: max mutations-per-run cap reached."
    );
    assert_eq!(
        format_pr_comments_planned_action(
            TriageDecision::QuickFix,
            Some(ProcessMutationSkipReason::ConfirmLabelMissing),
            false
        ),
        "Skipped: required confirmation label is missing."
    );
}

#[test]
fn format_issues_watch_planned_action_mentions_skip_reason() {
    let planned = format_issues_watch_planned_action(
        IssueWatchDecision::QuickFix,
        Some(ProcessMutationSkipReason::MaxActItemsCapReached),
        true,
    );
    assert_eq!(
        planned,
        "Skipped: max act-items cap reached before this queued issue.".to_string()
    );
}

#[test]
fn format_issues_watch_planned_action_plans_manual_follow_up() {
    assert_eq!(
        format_issues_watch_planned_action(IssueWatchDecision::NeedsManual, None, false),
        "Plan: post a manual-follow-up guidance comment on the issue."
    );
}

#[test]
fn parse_git_status_porcelain_entries_handles_clean_and_dirty_worktrees() {
    assert_eq!(parse_git_status_porcelain_entries(""), Vec::<String>::new());
    assert_eq!(
        parse_git_status_porcelain_entries(" M codex-rs/cli/src/main.rs\n?? notes.txt\n"),
        vec![
            " M codex-rs/cli/src/main.rs".to_string(),
            "?? notes.txt".to_string()
        ]
    );
}

#[test]
fn format_clean_worktree_guardrail_error_includes_count_and_preview() {
    let message =
        format_clean_worktree_guardrail_error(&[" M a.rs".to_string(), "?? b.txt".to_string()]);
    assert_eq!(
        message,
        "Guardrail `--require-clean-worktree` blocked mutations: found 2 uncommitted change(s):  M a.rs; ?? b.txt"
    );
}

#[test]
fn format_clean_worktree_guardrail_error_previews_first_five() {
    let entries: Vec<String> = (1..=7).map(|n| format!("?? f{n}")).collect();
    assert_eq!(
        format_clean_worktree_guardrail_error(&entries),
        "Guardrail `--require-clean-worktree` blocked mutations: found 7 uncommitted change(s). First entries: ?? f1; ?? f2; ?? f3; ?? f4; ?? f5"
    );
}

#[test]
fn try_schedule_mutation_reports_cap_skip_decision() {
    let mut mutation_count = 1usize;
    let reason = try_schedule_mutation(&mut mutation_count, Some(1));
    assert_eq!(
        reason,
        Some(ProcessMutationSkipReason::MaxMutationsPerRunReached)
    );
    assert_eq!(mutation_count, 1);
}

#[test]
fn try_schedule_mutation_counts_until_cap() {
    let mut count = 0usize;
    assert_eq!(try_schedule_mutation(&mut count, Some(2)), None);
    assert_eq!(try_schedule_mutation(&mut count, Some(2)), None);
    assert_eq!(count, 2);
    assert!(try_schedule_mutation(&mut count, Some(2)).is_some());
    assert_eq!(try_schedule_mutation(&mut count, None), None);
    assert_eq!(count, 3);
}

#[test]
fn try_schedule_mutation_atomic_enforces_cap() {
    let counter = AtomicUsize::new(0);
    assert_eq!(try_schedule_mutation_atomic(&counter, Some(2)), None);
    assert_eq!(try_schedule_mutation_atomic(&counter, Some(2)), None);
    assert_eq!(
        try_schedule_mutation_atomic(&counter, Some(2)),
        Some(ProcessMutationSkipReason::MaxMutationsPerRunReached)
    );
    assert_eq!(counter.load(std::sync::atomic::Ordering::Relaxed), 2);
    assert_eq!(try_schedule_mutation_atomic(&counter, None), None);
    assert_eq!(counter.load(std::sync::atomic::Ordering::Relaxed), 3);
}

#[test]
fn try_schedule_mutation_atomic_zero_cap_skips_everything() {
    let counter = AtomicUsize::new(0);
    assert_eq!(
        try_schedule_mutation_atomic(&counter, Some(0)),
        Some(ProcessMutationSkipReason::MaxMutationsPerRunReached)
    );
    assert_eq!(counter.load(std::sync::atomic::Ordering::Relaxed), 0);
}

#[test]
fn issue_has_confirm_label_matches_exact_label() {
    let issue = ProcessWatchIssueCandidate {
        number: 1,
        title: "Title".to_string(),
        body: "Body".to_string(),
        url: "https://github.com/openai/codex-process/issues/1".to_string(),
        labels: vec!["process:auto-fix".to_string(), "bug".to_string()],
    };
    assert!(issue_has_confirm_label(&issue, "process:auto-fix"));
    assert!(!issue_has_confirm_label(&issue, "process:approved"));
}

#[test]
fn build_guardrail_settings_copies_flags() {
    let s = build_guardrail_settings(true, false, Some("ok"), Some(9));
    assert!(s.active);
    assert!(!s.require_clean_worktree);
    assert_eq!(s.confirm_label.as_deref(), Some("ok"));
    assert_eq!(s.max_mutations_per_run, Some(9));
    let s = build_guardrail_settings(false, true, None, None);
    assert_eq!(s.confirm_label, None);
    assert_eq!(s.max_mutations_per_run, None);
}

#[test]
fn format_follow_up_issue_body_renders_readable_markdown() {
    let body = format_follow_up_issue_body(
        "openai/codex",
        42,
        "https://github.com/openai/codex/pull/42#discussion_r1",
        "Please fix this.\n\nNeed tests.",
    );
    assert_eq!(
        body,
        "Created by `codex process pr-comments --act`.\n\n- Source PR: https://github.com/openai/codex/pull/42\n- Source comment: https://github.com/openai/codex/pull/42#discussion_r1\n\nOriginal comment:\n\n> Please fix this.\n>\n> Need tests.\n"
            .to_string()
    );
}

#[test]
fn to_markdown_blockquote_handles_empty_text() {
    assert_eq!(to_markdown_blockquote(""), "> (empty comment)");
    assert_eq!(to_markdown_blockquote("a  \r\n  \nb"), "> a\n>\n> b");
}

#[test]
fn extract_first_url_returns_http_url_with_trailing_punctuation_trimmed() {
    let text = "comment posted: https://github.com/openai/codex/pull/1#issuecomment-2). done";
    let parsed = extract_first_url(text);
    assert_eq!(
        parsed,
        Some("https://github.com/openai/codex/pull/1#issuecomment-2".to_string())
    );
}

#[test]
fn extract_first_url_without_url_is_none() {
    assert_eq!(extract_first_url("no links here"), None);
    assert_eq!(extract_first_url("see http://a.b/c.,"), Some("http://a.b/c".to_string()));
}

#[test]
fn format_pr_update_comment_body_includes_files_and_verification_when_available() {
    let body = format_pr_update_comment_body(&[QuickFixSummary {
        comment_id: "PRRC_123".to_string(),
        summary: "Applied minimal fix".to_string(),
        files: vec!["codex-rs/cli/src/main.rs".to_string()],
        verification: Some("not run".to_string()),
        commit_sha: Some("0123456789abcdef".to_string()),
        commit_url: Some(
            "https://github.com/openai/codex-process/commit/0123456789abcdef".to_string(),
        ),
        follow_up_pr_url: Some("https://github.com/openai/codex-process/pull/77".to_string()),
        follow_up_pr_number: Some(77),
        thread_resolved: Some(true),
        thread_resolve_error: None,
    }]);
    assert_eq!(
        body,
        "Quick-fix update from `codex process pr-comments --act`.\n\nApplied items:\n- `PRRC_123`: Applied minimal fix (files: codex-rs/cli/src/main.rs); verification: not run; commit: [`0123456789ab`](https://github.com/openai/codex-process/commit/0123456789abcdef); follow-up PR: [#77](https://github.com/openai/codex-process/pull/77); review thread: resolved\n"
            .to_string()
    );
}

#[test]
fn format_pr_update_comment_body_includes_thread_resolution_failure_details() {
    let body = format_pr_update_comment_body(&[QuickFixSummary {
        comment_id: "PRRC_321".to_string(),
        summary: "Applied follow-up change".to_string(),
        files: Vec::new(),
        verification: None,
        commit_sha: None,
        commit_url: None,
        follow_up_pr_url: Some("https://github.com/openai/codex-process/pull/89".to_string()),
        follow_up_pr_number: Some(89),
        thread_resolved: Some(false),
        thread_resolve_error: Some("Forbidden".to_string()),
    }]);
    assert_eq!(
        body,
        "Quick-fix update from `codex process pr-comments --act`.\n\nApplied items:\n- `PRRC_321`: Applied follow-up change; follow-up PR: [#89](https://github.com/openai/codex-process/pull/89); review thread: resolution failed (Forbidden)\n"
            .to_string()
    );
}

#[test]
fn parse_gh_pr_create_output_extracts_url_and_number() {
    let parsed = parse_gh_pr_create_output(
        "https://github.com/openai/codex-process/pull/88\nCreated pull request #88",
    );
    assert_eq!(
        parsed,
        ParsedGhPrCreateOutput {
            url: Some("https://github.com/openai/codex-process/pull/88".to_string()),
            number: Some(88),
        }
    );
}

#[test]
fn parse_gh_pr_create_output_extracts_number_when_only_hash_is_present() {
    let parsed = parse_gh_pr_create_output("Created pull request #91");
    assert_eq!(
        parsed,
        ParsedGhPrCreateOutput {
            url: None,
            number: Some(91),
        }
    );
}

#[test]
fn parse_gh_pr_create_output_prefers_pull_url_over_other_urls() {
    let parsed = parse_gh_pr_create_output(
        "Compare at https://github.com/openai/codex-process/compare/a...b and PR https://github.com/openai/codex-process/pull/99",
    );
    assert_eq!(
        parsed,
        ParsedGhPrCreateOutput {
            url: Some("https://github.com/openai/codex-process/pull/99".to_string()),
            number: Some(99),
        }
    );
}

#[test]
fn parse_pr_numbers_from_urls_and_text() {
    assert_eq!(parse_pr_number_from_url("https://x/pull/123/files"), Some(123));
    assert_eq!(parse_pr_number_from_url("https://x/pull/abc"), None);
    assert_eq!(parse_pr_number_from_url("https://x/issues/5"), None);
    assert_eq!(parse_pr_number_from_url("https://x/pull/99999999999999999999"), None);
    assert_eq!(parse_pr_number_from_text("see (#42)."), Some(42));
    assert_eq!(parse_pr_number_from_text("# #x <https://x/pull/7>"), Some(7));
    assert_eq!(parse_pr_number_from_text("nothing"), None);
}

#[test]
fn parse_gh_issue_comment_output_extracts_issue_comment_url() {
    let parsed = parse_gh_issue_comment_output(
        "https://github.com/openai/codex-process/issues/42#issuecomment-9999",
    );
    assert_eq!(
        parsed,
        ParsedGhIssueCommentOutput {
            url: Some(
                "https://github.com/openai/codex-process/issues/42#issuecomment-9999".to_string()
            ),
        }
    );
}

#[test]
fn parse_gh_issue_comment_output_ignores_non_issue_urls() {
    let parsed = parse_gh_issue_comment_output(
        "comment posted: https://github.com/openai/codex-process/pull/42#issuecomment-1000",
    );
    assert_eq!(parsed, ParsedGhIssueCommentOutput { url: None });
}

#[test]
fn parse_gh_issue_comment_output_prefers_issue_comment_url_when_multiple_urls_present() {
    let parsed = parse_gh_issue_comment_output(
        "Compare: https://github.com/openai/codex-process/compare/main...branch Comment: https://github.com/openai/codex-process/issues/42#issuecomment-123",
    );
    assert_eq!(
        parsed,
        ParsedGhIssueCommentOutput {
            url: Some(
                "https://github.com/openai/codex-process/issues/42#issuecomment-123".to_string()
            ),
        }
    );
}

fn resolve_response(thread: Option<(&str, bool)>, errors: Option<Vec<&str>>) -> GhResolveReviewThreadResponse {
    GhResolveReviewThreadResponse {
        data: Some(GhResolveReviewThreadData {
            resolve_review_thread: Some(GhResolveReviewThreadPayload {
                thread: thread.map(|(id, is_resolved)| GhResolveReviewThreadNode {
                    id: id.to_string(),
                    is_resolved,
                }),
            }),
        }),
        errors: errors.map(|es| {
            es.into_iter()
                .map(|m| GhGraphQlError { message: m.to_string() })
                .collect()
        }),
    }
}

#[test]
fn parse_resolve_review_thread_response_accepts_resolved_thread() {
    let input = resolve_response(Some(("PRRT_1", true)), None);
    parse_resolve_review_thread_response(input).expect("parse should succeed");
}

#[test]
fn parse_resolve_review_thread_response_reports_graphql_errors() {
    let input = GhResolveReviewThreadResponse {
        data: None,
        errors: Some(vec![GhGraphQlError { message: "Forbidden".to_string() }]),
    };
    let err = parse_resolve_review_thread_response(input).expect_err("parse should fail");
    assert_eq!(err.to_string(), "GitHub GraphQL returned errors: Forbidden");
}

#[test]
fn parse_resolve_review_thread_response_reports_missing_thread_data() {
    let input = resolve_response(None, None);
    let err = parse_resolve_review_thread_response(input).expect_err("parse should fail");
    assert_eq!(
        err.to_string(),
        "GitHub GraphQL response did not include resolveReviewThread.thread data."
    );
}

#[test]
fn parse_resolve_review_thread_response_reports_unresolved_thread() {
    let err = parse_resolve_review_thread_response(resolve_response(Some(("PRRT_5", false)), Some(vec![])))
        .expect_err("unresolved fails");
    assert_eq!(
        err,
        "GitHub GraphQL resolveReviewThread returned unresolved thread PRRT_5."
    );
}

fn triage_item(comment_id: &str, body: &str, comment_url: &str) -> ProcessCommentTriageItem {
    ProcessCommentTriageItem {
        source: "review_comment".to_string(),
        comment_id: comment_id.to_string(),
        review_thread_id: Some("PRRT_1".to_string()),
        author: "alice".to_string(),
        body: body.to_string(),
        comment_url: comment_url.to_string(),
        decision: TriageDecision::QuickFix,
        planned_action: "Plan: run targeted quick-fix automation (codex subprocess + branch/commit/push + follow-up PR/comment updates).".to_string(),
        skipped_reasons: Vec::new(),
        created_issue_url: None,
        todo: None,
        quick_fix_attempted: true,
        quick_fix_success: Some(true),
        quick_fix_summary: None,
        quick_fix_error: None,
        quick_fix_branch: Some("process/quick-fix-pr-42-prrc-1".to_string()),
        quick_fix_commit_sha: Some("abc".to_string()),
        quick_fix_commit_url: Some("https://github.com/openai/codex-process/commit/abc".to_string()),
        quick_fix_pushed: Some(true),
        quick_fix_remote_branch: Some("process/quick-fix-pr-42-prrc-1".to_string()),
        quick_fix_pr_url: None,
        quick_fix_pr_number: None,
        quick_fix_push_error: None,
        quick_fix_pr_error: None,
        quick_fix_thread_resolved: None,
        quick_fix_thread_resolve_error: None,
    }
}

#[test]
fn format_quick_fix_follow_up_pr_body_includes_required_links_and_optional_commit() {
    let body = format_quick_fix_follow_up_pr_body(
        "openai/codex-process",
        42,
        &triage_item(
            "PRRC_1",
            "Please tighten this check.",
            "https://github.com/openai/codex-process/pull/42#discussion_r1",
        ),
        Some("https://github.com/openai/codex-process/commit/abc"),
    );
    assert_eq!(
        body,
        "Created by `codex process pr-comments --act`.\n\n- Source PR: https://github.com/openai/codex-process/pull/42\n- Source comment: https://github.com/openai/codex-process/pull/42#discussion_r1\n- Quick-fix commit: https://github.com/openai/codex-process/commit/abc\n\nOriginal comment:\n\n> Please tighten this check.\n"
            .to_string()
    );
}

#[test]
fn format_issue_watch_follow_up_pr_body_includes_issue_and_commit_context() {
    let body = format_issue_watch_follow_up_pr_body(
        "openai/codex-process",
        &ProcessWatchIssueCandidate {
            number: 123,
            title: "Fix docs typo in process mode".to_string(),
            body: "Typo in README process section.".to_string(),
            url: "https://github.com/openai/codex-process/issues/123".to_string(),
            labels: vec!["process:auto-fix".to_string()],
        },
        Some("https://github.com/openai/codex-process/commit/abc123"),
    );
    assert_eq!(
        body,
        "Created by `codex process issues watch --act`.\n\n- Source issue: https://github.com/openai/codex-process/issues/123\n- Repository: https://github.com/openai/codex-process\n- Quick-fix commit: https://github.com/openai/codex-process/commit/abc123\n\nIssue summary:\n\n- #123: Fix docs typo in process mode\n"
            .to_string()
    );
}

#[test]
fn format_issue_watch_manual_follow_up_comment_is_concise() {
    let body = format_issue_watch_manual_follow_up_comment("requires architectural changes");
    assert_eq!(
        body,
        "Automation update from `codex process issues watch --act`.\n\nManual follow-up needed: requires architectural changes\n"
            .to_string()
    );
}

#[test]
fn format_issue_watch_success_comment_includes_pr_and_commit_links() {
    let body = format_issue_watch_success_comment(
        Some("Updated docs and fixed typo"),
        Some("https://github.com/openai/codex-process/pull/200"),
        Some(200),
        Some("https://github.com/openai/codex-process/commit/abc123"),
    );
    assert_eq!(
        body,
        "Automation update from `codex process issues watch --act`.\n\n- Result: Updated docs and fixed typo\n- Follow-up PR: [#200](https://github.com/openai/codex-process/pull/200)\n- Commit: https://github.com/openai/codex-process/commit/abc123\n"
            .to_string()
    );
}

#[test]
fn format_issue_watch_success_comment_without_details() {
    assert_eq!(
        format_issue_watch_success_comment(None, Some("https://x/pull/1"), None, None),
        "Automation update from `codex process issues watch --act`.\n\n- Result: Applied targeted quick fix.\n- Follow-up PR: https://x/pull/1\n"
    );
}

#[test]
fn quick_fix_branch_name_is_deterministic_and_safe() {
    let branch = quick_fix_branch_name(123, "PRRC_ABC/123");
    assert_eq!(branch, "process/quick-fix-pr-123-prrc-abc-123".to_string());
}

#[test]
fn short_comment_id_for_branch_caps_and_falls_back() {
    assert_eq!(short_comment_id_for_branch("__--__"), "comment");
    assert_eq!(short_comment_id_for_branch("a--b__"), "a-b");
    assert_eq!(
        short_comment_id_for_branch("ABCDEFGHIJKLMNOPQRSTUVWXYZ0123"),
        "abcdefghijklmnopqrstuvwx"
    );
    assert_eq!(short_comment_id_for_branch("abcdefghijklmnopqrstuvw-x"), "abcdefghijklmnopqrstuvw");
}

#[test]
fn issue_watch_branch_and_commit_names() {
    assert_eq!(
        issue_watch_quick_fix_branch_name(7, "1700000000123"),
        "process/quick-fix-issue-7-00000123"
    );
    assert_eq!(issue_watch_quick_fix_branch_name(7, "42"), "process/quick-fix-issue-7-42");
    assert_eq!(issue_watch_quick_fix_commit_message(9), "process: quick fix for issue #9");
    assert_eq!(
        quick_fix_commit_message(12, "PRRC_1"),
        "process: quick fix for PR #12 comment PRRC_1"
    );
    assert_eq!(
        quick_fix_worktree_dir_name("process/quick-fix-pr-1-a"),
        "process__quick-fix-pr-1-a"
    );
}

#[test]
fn quick_fix_commit_url_uses_repo_and_sha() {
    let url = quick_fix_commit_url("openai/codex-process", "abc123");
    assert_eq!(
        url,
        "https://github.com/openai/codex-process/commit/abc123".to_string()
    );
}

#[test]
fn short_commit_sha_truncates_long_values() {
    assert_eq!(short_commit_sha("0123456789abcdef"), "0123456789ab");
    assert_eq!(short_commit_sha("abc123"), "abc123");
}

#[test]
fn quick_fix_prompts_embed_trimmed_bounded_body() {
    let item = triage_item("PRRC_1", "  fix it  ", "https://c");
    let prompt = build_quick_fix_prompt("o/r", 5, &item);
    assert!(prompt.starts_with(
        "You are applying a minimal targeted fix in this repository.\n\nRepository: o/r\nPR number: 5\nComment URL: https://c\nComment body:\nfix it\n\nRequirements:\n- Apply the smallest safe change that addresses the comment."
    ));
    assert!(prompt.ends_with("VERIFICATION: <short status or none>"));

    let long = "x".repeat(2500);
    let issue = candidate(3, "T", &long, &[]);
    let prompt = build_issue_watch_quick_fix_prompt(&issue);
    assert!(prompt.contains(&format!("Issue body:\n{}\n\nRequirements:", "x".repeat(2000))));
    assert!(prompt.contains("Issue number: 3\nIssue URL: https://github.com/openai/codex-process/issues/3\nIssue title: T\n"));
}

#[test]
fn is_transient_gh_failure_matches_status_and_rate_limit_signals() {
    assert!(is_transient_gh_failure(
        Some(429),
        "HTTP 429 Too Many Requests",
    ));
    assert!(is_transient_gh_failure(
        Some(1),
        "You have exceeded a secondary rate limit. Please try again later.",
    ));
    assert!(is_transient_gh_failure(
        Some(1),
        "Request failed due to abuse detection mechanisms.",
    ));
    assert!(!is_transient_gh_failure(
        Some(1),
        "GraphQL: Resource not accessible by integration",
    ));
}

#[test]
fn is_transient_gh_failure_lowercases_details() {
    assert!(is_transient_gh_failure(Some(1), "HTTP 429"));
    assert!(is_transient_gh_failure(None, "ECONNRESET"));
    assert!(is_transient_gh_failure(Some(503), ""));
    assert!(!is_transient_gh_failure(None, "not found"));
}

#[test]
fn gh_retry_backoff_ms_grows_exponentially_and_caps_with_jitter() {
    assert_eq!(gh_retry_backoff_ms(500, 1, 0), 500);
    assert_eq!(gh_retry_backoff_ms(500, 2, 0), 1000);
    assert_eq!(gh_retry_backoff_ms(500, 3, 0), 2000);

    let capped = gh_retry_backoff_ms(500, 8, 9_999_999);
    assert!(capped >= MAX_PROCESS_GH_BACKOFF_MS);
    assert!(capped <= MAX_PROCESS_GH_BACKOFF_MS + (MAX_PROCESS_GH_BACKOFF_MS / 4));
}

#[test]
fn gh_retry_backoff_ms_exact_jitter_and_saturation() {
    assert_eq!(gh_retry_backoff_ms(500, 1, 7), 500 + 7 % 126);
    assert_eq!(gh_retry_backoff_ms(500, 0, 0), 500);
    assert_eq!(gh_retry_backoff_ms(u64::MAX, 30, 0), 10_000);
    assert_eq!(gh_retry_backoff_ms(3, 1, 5), 3);
}

#[test]
fn summarize_gh_args_truncates_long_graphql_payloads() {
    let query = "a".repeat(300);
    let args = vec![
        "api".to_string(),
        "graphql".to_string(),
        "-f".to_string(),
        format!("query={query}"),
    ];
    let summary = summarize_gh_args(&args);
    assert!(summary.ends_with("..."));
    assert!(summary.len() <= 120);
}

#[test]
fn summarize_gh_args_keeps_short_commands() {
    let args = vec!["pr".to_string(), "view".to_string(), "7".to_string()];
    assert_eq!(summarize_gh_args(&args), "pr view 7");
}

#[test]
fn gh_retry_configuration_and_steps() {
    let cfg = gh_retry_config(None);
    assert_eq!(cfg, GhRetryConfig { max_attempts: 5, base_backoff_ms: 500 });
    let cfg = init_process_gh_retry_config(ProcessGhRetryArgs { gh_max_attempts: 3, gh_base_backoff_ms: 100 });
    assert_eq!(gh_retry_config(Some(cfg)), cfg);
    assert_eq!(gh_retry_step(cfg, 1, true, 0), GhRetryStep::Retry { backoff_ms: 100 });
    assert_eq!(gh_retry_step(cfg, 3, true, 0), GhRetryStep::GiveUp { transient: true });
    assert_eq!(gh_retry_step(cfg, 1, false, 0), GhRetryStep::GiveUp { transient: false });
}

#[test]
fn gh_retry_messages() {
    assert_eq!(gh_failure_details("  boom \n", "out"), "boom");
    assert_eq!(gh_failure_details(" ", " out "), "out");
    assert_eq!(gh_failure_details("", ""), "no output captured");
    assert_eq!(
        gh_attempt_summary(2, 5, "exit status: 1", "HTTP 502"),
        "attempt 2/5 failed with status exit status: 1: HTTP 502"
    );
    assert_eq!(
        gh_retry_warning("gh pr view", "HTTP 502", 2, 5, 1000),
        "warning: gh pr view hit a transient GitHub failure (HTTP 502); retrying attempt 3/5 in 1000ms"
    );
    assert_eq!(
        gh_transient_exhausted_message("gh x", &["a".to_string(), "b".to_string()], 2),
        "gh x failed after 2 attempts due to transient GitHub failures.\na\nb\nCheck `gh auth status`; if rate-limited, wait and retry with `--gh-max-attempts` / `--gh-base-backoff-ms`."
    );
    assert_eq!(
        gh_permanent_failure_message("gh x", 1, "nope"),
        "gh x failed with a non-retryable GitHub error after 1 attempt(s): nope\nCheck `gh auth status` and verify repo access."
    );
}

#[test]
fn guardrail_summary_line_lists_each_setting() {
    let s = build_guardrail_settings(true, false, Some("ok-to-act"), Some(12));
    assert_eq!(
        guardrail_summary_line(&s),
        "Guardrails (act mode): active=true requireCleanWorktree=false confirmLabel=ok-to-act maxMutationsPerRun=12"
    );
    let none = build_guardrail_settings(false, true, None, None);
    assert_eq!(
        guardrail_summary_line(&none),
        "Guardrails (act mode): active=false requireCleanWorktree=true confirmLabel=none maxMutationsPerRun=none"
    );
}

#[test]
fn process_run_records_start_pending() {
    let r = codex_process::process_runs::process_run_records("1700", "ship it");
    assert_eq!(r.contract.run_id, "1700");
    assert_eq!(r.contract.state, "CONTRACT");
    assert_eq!(r.contract.task, "ship it");
    assert_eq!(r.contract.status, "pending");
    assert_eq!(r.red_proof.state, "RED");
    assert_eq!(r.red_proof.required, "capture failing test proof");
    assert_eq!(r.verify.state, "VERIFY");
    assert_eq!(r.verify.required, vec!["lint".to_string(), "tests".to_string()]);
    assert_eq!(r.traceability.state, "EVIDENCE");
    assert!(r.traceability.ac_to_tests_to_files.is_empty());
}
