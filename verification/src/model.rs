//! Data that process mode reads from GitHub and carries between its steps.

use crate::guardrails::ProcessMutationSkipReason;
use crate::triage::TriageDecision;
use vstd::prelude::*;

verus! {

/// An open issue matched by `issues watch`, with what triage reads of it.
#[derive(Debug, Clone, PartialEq, Eq)]
pub struct ProcessWatchIssueCandidate {
    pub number: u64,
    pub title: String,
    pub body: String,
    pub url: String,
    pub labels: Vec<String>,
}

/// An open issue as recorded in the `issues-watch.json` artifact.
#[derive(Debug, Clone, PartialEq, Eq)]
pub struct ProcessWatchIssue {
    pub number: u64,
    pub title: String,
    pub url: String,
}

/// A comment of an unresolved pull-request review thread.
#[derive(Debug, Clone, PartialEq, Eq)]
pub struct UnresolvedReviewComment {
    pub id: String,
    pub review_thread_id: Option<String>,
    pub author: String,
    pub path: String,
    pub line: Option<u64>,
    pub body: String,
    pub url: String,
}

/// A comment of the pull-request conversation.
#[derive(Debug, Clone, PartialEq, Eq)]
pub struct OpenIssueComment {
    pub id: String,
    pub author: String,
    pub body: String,
    pub url: String,
}

/// Comment counts by kind.
#[derive(Debug, Clone, Copy, PartialEq, Eq)]
pub struct GroupedByType {
    pub unresolved_review_comments: usize,
    pub open_issue_comments: usize,
    pub total: usize,
}

/// One triaged pull-request comment and what `--act` did with it.
#[derive(Debug, Clone, PartialEq, Eq)]
pub struct ProcessCommentTriageItem {
    pub source: String,
    pub comment_id: String,
    pub review_thread_id: Option<String>,
    pub author: String,
    pub body: String,
    pub comment_url: String,
    pub decision: TriageDecision,
    pub planned_action: String,
    pub skipped_reasons: Vec<ProcessMutationSkipReason>,
    pub created_issue_url: Option<String>,
    pub todo: Option<String>,
    pub quick_fix_attempted: bool,
    pub quick_fix_success: Option<bool>,
    pub quick_fix_summary: Option<String>,
    pub quick_fix_error: Option<String>,
    pub quick_fix_branch: Option<String>,
    pub quick_fix_commit_sha: Option<String>,
    pub quick_fix_commit_url: Option<String>,
    pub quick_fix_pushed: Option<bool>,
    pub quick_fix_remote_branch: Option<String>,
    pub quick_fix_pr_url: Option<String>,
    pub quick_fix_pr_number: Option<u64>,
    pub quick_fix_push_error: Option<String>,
    pub quick_fix_pr_error: Option<String>,
    pub quick_fix_thread_resolved: Option<bool>,
    pub quick_fix_thread_resolve_error: Option<String>,
}

/// The outcome of one quick-fix attempt.
#[derive(Debug, Clone, PartialEq, Eq)]
pub struct QuickFixExecutionResult {
    pub attempted: bool,
    pub success: bool,
    pub summary: Option<String>,
    pub error: Option<String>,
    pub files: Vec<String>,
    pub verification: Option<String>,
    pub branch_name: Option<String>,
    pub commit_sha: Option<String>,
    pub commit_url: Option<String>,
    pub pushed: Option<bool>,
    pub remote_branch: Option<String>,
    pub follow_up_pr_url: Option<String>,
    pub follow_up_pr_number: Option<u64>,
    pub push_error: Option<String>,
    pub pr_error: Option<String>,
}

/// A successful quick fix, as reported in the pull-request update comment.
#[derive(Debug, Clone, PartialEq, Eq)]
pub struct QuickFixSummary {
    pub comment_id: String,
    pub summary: String,
    pub files: Vec<String>,
    pub verification: Option<String>,
    pub commit_sha: Option<String>,
    pub commit_url: Option<String>,
    pub follow_up_pr_url: Option<String>,
    pub follow_up_pr_number: Option<u64>,
    pub thread_resolved: Option<bool>,
    pub thread_resolve_error: Option<String>,
}

} // verus!
