//! `process pr-comments`: the triage of a pull request's comments and what
//! `--act` does with each of them, under the run's guardrails.
//!
//! The run is a flow driven by its caller: each call of
//! `process_mode_pr_comments` takes the outcome of the last action and says
//! which action comes next, until the run is done.

use crate::gh_requests::follow_up_pr_created;
use crate::github::{extract_first_url, first_url, pr_create_number, pr_create_url};
use crate::guardrails::{
    cap_reached, opt_ref_view, opt_str_view, try_schedule_mutation, ProcessMutationSkipReason,
};
use crate::markdown::{
    follow_up_issue_body, quick_fix_follow_up_pr_body, format_follow_up_issue_body, format_pr_update_comment_body, format_quick_fix_follow_up_pr_body,
    pr_update_comment_body, short_sha_sliceable, summaries_sliceable,
};
use crate::model::{
    GroupedByType, OpenIssueComment, ProcessCommentTriageItem, QuickFixExecutionResult,
    QuickFixSummary, UnresolvedReviewComment,
};
use crate::quick_fix::{commit_message_for_comment, quick_fix_commit_message};
use crate::quick_fix_run::{failed_execution, failed_without_output};
use crate::triage::{
    classify_comment_triage, comment_triage, format_pr_comments_planned_action,
    pr_comments_planned_action, TriageDecision,
};
use crate::gh_requests::{follow_up_issue_created, follow_up_issue_title, format_follow_up_issue_title};
use vstd::prelude::*;
use vstd::string::StringSliceAdditionalSpecFns;

verus! {

// ---------------------------------------------------------------------------
// Triage
// ---------------------------------------------------------------------------

/// How many comments each triage decision got.
#[derive(Debug, Clone, Copy, PartialEq, Eq)]
pub struct ProcessTriageCounts {
    pub quick_fix: usize,
    pub needs_issue: usize,
    pub question: usize,
}

/// An issue opened for a comment.
#[derive(Debug, Clone, PartialEq, Eq)]
pub struct ProcessCreatedIssue {
    pub source_comment_id: String,
    pub source_comment_url: String,
    pub issue_url: String,
}

/// The comment counts of a pull request.
pub fn grouped_by_type(unresolved_review_comments: usize, open_issue_comments: usize) -> (r:
    GroupedByType)
    requires
        unresolved_review_comments + open_issue_comments <= usize::MAX,
    ensures
        r.unresolved_review_comments == unresolved_review_comments,
        r.open_issue_comments == open_issue_comments,
        r.total == unresolved_review_comments + open_issue_comments,
{
    GroupedByType {
        unresolved_review_comments,
        open_issue_comments,
        total: unresolved_review_comments + open_issue_comments,
    }
}

/// A comment as triage first records it: the decision and the planned
/// action, nothing done yet.
pub open spec fn fresh_item(
    item: ProcessCommentTriageItem,
    source: Seq<char>,
    comment_id: String,
    review_thread_id: Option<String>,
    author: String,
    body: String,
    url: String,
    dry_run: bool,
) -> bool {
    &&& item.source@ == source
    &&& item.comment_id == comment_id
    &&& item.review_thread_id == review_thread_id
    &&& item.author == author
    &&& item.body == body
    &&& item.comment_url == url
    &&& item.decision == comment_triage(body@)
    &&& item.planned_action@ == pr_comments_planned_action(item.decision, None, dry_run)
    &&& item.skipped_reasons@.len() == 0
    &&& item.created_issue_url is None
    &&& item.todo is None
    &&& !item.quick_fix_attempted
    &&& item.quick_fix_success is None
    &&& item.quick_fix_summary is None
    &&& item.quick_fix_error is None
    &&& item.quick_fix_branch is None
    &&& item.quick_fix_commit_sha is None
    &&& item.quick_fix_commit_url is None
    &&& item.quick_fix_pushed is None
    &&& item.quick_fix_remote_branch is None
    &&& item.quick_fix_pr_url is None
    &&& item.quick_fix_pr_number is None
    &&& item.quick_fix_push_error is None
    &&& item.quick_fix_pr_error is None
    &&& item.quick_fix_thread_resolved is None
    &&& item.quick_fix_thread_resolve_error is None
}

fn new_item(
    source: &str,
    comment_id: String,
    review_thread_id: Option<String>,
    author: String,
    body: String,
    url: String,
    dry_run: bool,
) -> (r: ProcessCommentTriageItem)
    ensures
        fresh_item(r, source@, comment_id, review_thread_id, author, body, url, dry_run),
{
    let decision = classify_comment_triage(body.as_str());
    ProcessCommentTriageItem {
        source: source.to_owned(),
        comment_id,
        review_thread_id,
        author,
        body,
        comment_url: url,
        decision,
        planned_action: format_pr_comments_planned_action(decision, None, dry_run),
        skipped_reasons: Vec::new(),
        created_issue_url: None,
        todo: None,
        quick_fix_attempted: false,
        quick_fix_success: None,
        quick_fix_summary: None,
        quick_fix_error: None,
        quick_fix_branch: None,
        quick_fix_commit_sha: None,
        quick_fix_commit_url: None,
        quick_fix_pushed: None,
        quick_fix_remote_branch: None,
        quick_fix_pr_url: None,
        quick_fix_pr_number: None,
        quick_fix_push_error: None,
        quick_fix_pr_error: None,
        quick_fix_thread_resolved: None,
        quick_fix_thread_resolve_error: None,
    }
}

pub open spec fn review_item(item: ProcessCommentTriageItem, c: UnresolvedReviewComment, dry_run: bool) -> bool {
    fresh_item(item, "review_comment"@, c.id, c.review_thread_id, c.author, c.body, c.url, dry_run)
}

pub open spec fn conversation_item(item: ProcessCommentTriageItem, c: OpenIssueComment, dry_run: bool) -> bool {
    fresh_item(item, "issue_comment"@, c.id, None, c.author, c.body, c.url, dry_run)
}

/// The triage items: one per review comment, then one per conversation
/// comment, in order.
pub fn build_triage_items(
    review_comments: Vec<UnresolvedReviewComment>,
    issue_comments: Vec<OpenIssueComment>,
    dry_run: bool,
) -> (r: Vec<ProcessCommentTriageItem>)
    ensures
        r@.len() == review_comments@.len() + issue_comments@.len(),
        forall|i: int|
            0 <= i < review_comments@.len() ==> review_item(#[trigger] r@[i], review_comments@[i], dry_run),
        forall|i: int|
            0 <= i < issue_comments@.len() ==> conversation_item(
                #[trigger] r@[review_comments@.len() + i],
                issue_comments@[i],
                dry_run,
            ),
{
    let ghost reviews = review_comments@;
    let ghost convs = issue_comments@;
    let mut items: Vec<ProcessCommentTriageItem> = Vec::new();
    let mut rest = review_comments;
    let mut i: usize = 0;
    let n = rest.len();
    while i < n
        invariant
            n == reviews.len(),
            i <= n,
            rest@.len() == n,
            forall|k: int| i <= k < n ==> rest@[k] == reviews[k],
            items@.len() == i,
            forall|k: int| 0 <= k < i ==> review_item(#[trigger] items@[k], reviews[k], dry_run),
        decreases n - i,
    {
        let c = rest[i].clone_record();
        items.push(
            new_item("review_comment", c.id, c.review_thread_id, c.author, c.body, c.url, dry_run),
        );
        i = i + 1;
    }
    let m = issue_comments.len();
    let mut j: usize = 0;
    while j < m
        invariant
            n == reviews.len(),
            m == convs.len(),
            issue_comments@ == convs,
            j <= m,
            items@.len() == n + j,
            forall|k: int| 0 <= k < n ==> review_item(#[trigger] items@[k], reviews[k], dry_run),
            forall|k: int| 0 <= k < j ==> conversation_item(#[trigger] items@[n + k], convs[k], dry_run),
        decreases m - j,
    {
        let c = issue_comments[j].clone_record();
        items.push(new_item("issue_comment", c.id, None, c.author, c.body, c.url, dry_run));
        j = j + 1;
    }
    items
}

impl UnresolvedReviewComment {
    /// A copy of the comment.
    pub fn clone_record(&self) -> (r: UnresolvedReviewComment)
        ensures
            r == *self,
    {
        UnresolvedReviewComment {
            id: self.id.clone(),
            review_thread_id: match &self.review_thread_id {
                Some(t) => Some(t.clone()),
                None => None,
            },
            author: self.author.clone(),
            path: self.path.clone(),
            line: self.line,
            body: self.body.clone(),
            url: self.url.clone(),
        }
    }
}

impl OpenIssueComment {
    /// A copy of the comment.
    pub fn clone_record(&self) -> (r: OpenIssueComment)
        ensures
            r == *self,
    {
        OpenIssueComment {
            id: self.id.clone(),
            author: self.author.clone(),
            body: self.body.clone(),
            url: self.url.clone(),
        }
    }
}

pub open spec fn count_decision(items: Seq<ProcessCommentTriageItem>, d: TriageDecision) -> nat
    decreases items.len(),
{
    if items.len() == 0 {
        0
    } else {
        count_decision(items.drop_last(), d) + if items.last().decision == d {
            1nat
        } else {
            0nat
        }
    }
}

proof fn lemma_count_decision_bound(items: Seq<ProcessCommentTriageItem>, d: TriageDecision)
    ensures
        count_decision(items, d) <= items.len(),
    decreases items.len(),
{
    if items.len() > 0 {
        lemma_count_decision_bound(items.drop_last(), d);
    }
}

/// How many items got each decision.
pub fn triage_counts(items: &Vec<ProcessCommentTriageItem>) -> (r: ProcessTriageCounts)
    ensures
        r.quick_fix == count_decision(items@, TriageDecision::QuickFix),
        r.needs_issue == count_decision(items@, TriageDecision::NeedsIssue),
        r.question == count_decision(items@, TriageDecision::Question),
{
    let mut r = ProcessTriageCounts { quick_fix: 0, needs_issue: 0, question: 0 };
    let mut i: usize = 0;
    while i < items.len()
        invariant
            i <= items@.len(),
            r.quick_fix == count_decision(items@.take(i as int), TriageDecision::QuickFix),
            r.needs_issue == count_decision(items@.take(i as int), TriageDecision::NeedsIssue),
            r.question == count_decision(items@.take(i as int), TriageDecision::Question),
        decreases items@.len() - i,
    {
        assert(items@.take(i + 1).drop_last() =~= items@.take(i as int));
        proof {
            lemma_count_decision_bound(items@.take(i as int), TriageDecision::QuickFix);
            lemma_count_decision_bound(items@.take(i as int), TriageDecision::NeedsIssue);
            lemma_count_decision_bound(items@.take(i as int), TriageDecision::Question);
        }
        match items[i].decision {
            TriageDecision::QuickFix => r.quick_fix = r.quick_fix + 1,
            TriageDecision::NeedsIssue => r.needs_issue = r.needs_issue + 1,
            TriageDecision::Question => r.question = r.question + 1,
        }
        i = i + 1;
    }
    assert(items@.take(items@.len() as int) =~= items@);
    r
}

// ---------------------------------------------------------------------------
// What `--act` records on an item
// ---------------------------------------------------------------------------

pub open spec fn manual_quick_fix_todo(item: ProcessCommentTriageItem) -> Seq<char> {
    "TODO: manual quick fix for comment "@ + item.comment_id@ + " ("@ + item.comment_url@ + ")"@
}

pub open spec fn manual_issue_todo(item: ProcessCommentTriageItem) -> Seq<char> {
    "TODO: manual follow-up issue for comment "@ + item.comment_id@ + " ("@ + item.comment_url@
        + ")"@
}

fn todo_text(prefix: &str, item: &ProcessCommentTriageItem) -> (r: String)
    ensures
        r@ == prefix@ + item.comment_id@ + " ("@ + item.comment_url@ + ")"@,
{
    let mut r = prefix.to_owned();
    r.append(item.comment_id.as_str());
    r.append(" (");
    r.append(item.comment_url.as_str());
    r.append(")");
    r
}

/// `after` is `before` skipped by the mutation cap: the planned action says
/// so, the reason is recorded and a manual to-do is left.
pub open spec fn skipped_by_cap(before: ProcessCommentTriageItem, after: ProcessCommentTriageItem) -> bool {
    &&& after.planned_action@ == pr_comments_planned_action(
        before.decision,
        Some(ProcessMutationSkipReason::MaxMutationsPerRunReached),
        false,
    )
    &&& after.skipped_reasons@ == before.skipped_reasons@.push(
        ProcessMutationSkipReason::MaxMutationsPerRunReached,
    )
    &&& opt_str_view(after.todo) == Some(
        if before.decision == TriageDecision::QuickFix {
            manual_quick_fix_todo(before)
        } else {
            manual_issue_todo(before)
        },
    )
    &&& after == (ProcessCommentTriageItem {
        planned_action: after.planned_action,
        skipped_reasons: after.skipped_reasons,
        todo: after.todo,
        ..before
    })
}

fn skip_by_cap(item: &mut ProcessCommentTriageItem)
    ensures
        skipped_by_cap(*old(item), *final(item)),
{
    item.planned_action = format_pr_comments_planned_action(
        item.decision,
        Some(ProcessMutationSkipReason::MaxMutationsPerRunReached),
        false,
    );
    item.skipped_reasons.push(ProcessMutationSkipReason::MaxMutationsPerRunReached);
    let todo = match item.decision {
        TriageDecision::QuickFix => todo_text("TODO: manual quick fix for comment ", item),
        _ => todo_text("TODO: manual follow-up issue for comment ", item),
    };
    item.todo = Some(todo);
}

pub open spec fn missing_branch_message() -> Seq<char> {
    "Unable to create follow-up PR: quick-fix branch name is missing."@
}

pub open spec fn pr_cap_message() -> Seq<char> {
    "Skipped follow-up PR creation: max mutations-per-run cap reached."@
}

pub open spec fn applied_summary() -> Seq<char> {
    "Applied targeted quick fix."@
}

/// `after` is `before` with the outcome of its follow-up pull request: the
/// URL and number that `gh pr create` printed, or the error.
pub open spec fn with_follow_up_pr(
    before: QuickFixExecutionResult,
    after: QuickFixExecutionResult,
    res: Result<String, String>,
) -> bool {
    match res {
        Ok(text) => match pr_create_url(text@) {
            Some(u) => {
                &&& opt_str_view(after.follow_up_pr_url) == Some(u)
                &&& after.follow_up_pr_number == pr_create_number(text@)
                &&& after == (QuickFixExecutionResult {
                    follow_up_pr_url: after.follow_up_pr_url,
                    follow_up_pr_number: after.follow_up_pr_number,
                    ..before
                })
            },
            None => {
                &&& opt_str_view(after.pr_error) == Some(
                    crate::gh_requests::missing_pr_url_message(text@),
                )
                &&& after == (QuickFixExecutionResult { pr_error: after.pr_error, ..before })
            },
        },
        Err(e) => after == (QuickFixExecutionResult { pr_error: Some(e), ..before }),
    }
}

/// Records what creating the follow-up pull request gave.
pub fn record_follow_up_pr(execution: &mut QuickFixExecutionResult, res: Result<String, String>)
    ensures
        with_follow_up_pr(*old(execution), *final(execution), res),
{
    match res {
        Ok(text) => match follow_up_pr_created(text.as_str()) {
            Ok((url, number)) => {
                execution.follow_up_pr_url = Some(url);
                execution.follow_up_pr_number = number;
            },
            Err(e) => {
                execution.pr_error = Some(e);
            },
        },
        Err(e) => {
            execution.pr_error = Some(e);
        },
    }
}

/// The summary recorded for an execution: a successful one always has one.
pub open spec fn execution_summary(e: QuickFixExecutionResult) -> Option<Seq<char>> {
    if e.success {
        match e.summary {
            Some(s) => Some(s@),
            None => Some(applied_summary()),
        }
    } else {
        opt_str_view(e.summary)
    }
}

/// `after` is `before` with the quick-fix fields taken from `e`.
pub open spec fn recorded_execution(
    before: ProcessCommentTriageItem,
    after: ProcessCommentTriageItem,
    e: QuickFixExecutionResult,
) -> bool {
    &&& after.quick_fix_attempted == e.attempted
    &&& after.quick_fix_success == Some(e.success)
    &&& opt_str_view(after.quick_fix_summary) == execution_summary(e)
    &&& after == (ProcessCommentTriageItem {
        quick_fix_attempted: e.attempted,
        quick_fix_success: Some(e.success),
        quick_fix_summary: after.quick_fix_summary,
        quick_fix_error: e.error,
        quick_fix_branch: e.branch_name,
        quick_fix_commit_sha: e.commit_sha,
        quick_fix_commit_url: e.commit_url,
        quick_fix_pushed: e.pushed,
        quick_fix_remote_branch: e.remote_branch,
        quick_fix_pr_url: e.follow_up_pr_url,
        quick_fix_pr_number: e.follow_up_pr_number,
        quick_fix_push_error: e.push_error,
        quick_fix_pr_error: e.pr_error,
        ..before
    })
}

pub(crate) fn clone_opt(o: &Option<String>) -> (r: Option<String>)
    ensures
        r == *o,
{
    match o {
        Some(s) => Some(s.clone()),
        None => None,
    }
}

fn summary_of(e: &QuickFixExecutionResult) -> (r: Option<String>)
    ensures
        opt_str_view(r) == execution_summary(*e),
{
    if e.success {
        match &e.summary {
            Some(s) => Some(s.clone()),
            None => Some(String::from_str("Applied targeted quick fix.")),
        }
    } else {
        clone_opt(&e.summary)
    }
}

/// Records the quick-fix fields of `item` from `execution`.
pub fn record_execution(item: &mut ProcessCommentTriageItem, execution: &QuickFixExecutionResult)
    ensures
        recorded_execution(*old(item), *final(item), *execution),
{
    item.quick_fix_attempted = execution.attempted;
    item.quick_fix_success = Some(execution.success);
    item.quick_fix_summary = summary_of(execution);
    item.quick_fix_error = clone_opt(&execution.error);
    item.quick_fix_branch = clone_opt(&execution.branch_name);
    item.quick_fix_commit_sha = clone_opt(&execution.commit_sha);
    item.quick_fix_commit_url = clone_opt(&execution.commit_url);
    item.quick_fix_pushed = execution.pushed;
    item.quick_fix_remote_branch = clone_opt(&execution.remote_branch);
    item.quick_fix_pr_url = clone_opt(&execution.follow_up_pr_url);
    item.quick_fix_pr_number = execution.follow_up_pr_number;
    item.quick_fix_push_error = clone_opt(&execution.push_error);
    item.quick_fix_pr_error = clone_opt(&execution.pr_error);
}

/// `after` is `before` with the outcome of resolving its review thread.
pub open spec fn with_thread_resolution(
    before: ProcessCommentTriageItem,
    after: ProcessCommentTriageItem,
    res: Result<(), String>,
) -> bool {
    match res {
        Ok(()) => after == (ProcessCommentTriageItem {
            quick_fix_thread_resolved: Some(true),
            quick_fix_thread_resolve_error: None,
            ..before
        }),
        Err(e) => after == (ProcessCommentTriageItem {
            quick_fix_thread_resolved: Some(false),
            quick_fix_thread_resolve_error: Some(e),
            ..before
        }),
    }
}

pub fn record_thread_resolution(item: &mut ProcessCommentTriageItem, res: Result<(), String>)
    ensures
        with_thread_resolution(*old(item), *final(item), res),
{
    match res {
        Ok(()) => {
            item.quick_fix_thread_resolved = Some(true);
            item.quick_fix_thread_resolve_error = None;
        },
        Err(e) => {
            item.quick_fix_thread_resolved = Some(false);
            item.quick_fix_thread_resolve_error = Some(e);
        },
    }
}

/// The summary of a successful quick fix for the update comment.
pub open spec fn summary_for(s: QuickFixSummary, item: ProcessCommentTriageItem, e: QuickFixExecutionResult) -> bool {
    &&& s.comment_id == item.comment_id
    &&& Some(s.summary@) == execution_summary(e)
    &&& s.files == e.files
    &&& s.verification == e.verification
    &&& s.commit_sha == e.commit_sha
    &&& s.commit_url == e.commit_url
    &&& s.follow_up_pr_url == e.follow_up_pr_url
    &&& s.follow_up_pr_number == e.follow_up_pr_number
    &&& s.thread_resolved == item.quick_fix_thread_resolved
    &&& s.thread_resolve_error == item.quick_fix_thread_resolve_error
}

pub fn quick_fix_summary(item: &ProcessCommentTriageItem, execution: QuickFixExecutionResult) -> (r:
    QuickFixSummary)
    requires
        execution.success,
    ensures
        summary_for(r, *item, execution),
{
    let summary = match summary_of(&execution) {
        Some(s) => s,
        None => String::new(),
    };
    QuickFixSummary {
        comment_id: item.comment_id.clone(),
        summary,
        files: execution.files,
        verification: execution.verification,
        commit_sha: execution.commit_sha,
        commit_url: execution.commit_url,
        follow_up_pr_url: execution.follow_up_pr_url,
        follow_up_pr_number: execution.follow_up_pr_number,
        thread_resolved: item.quick_fix_thread_resolved,
        thread_resolve_error: clone_opt(&item.quick_fix_thread_resolve_error),
    }
}

/// Whether the update comment can shorten a commit sha: slicing at byte 12
/// needs a char boundary there.
pub fn commit_sha_sliceable(sha: &str) -> (b: bool)
    ensures
        b == short_sha_sliceable(sha@),
{
    assert(sha.spec_bytes() == vstd::utf8::encode_utf8(sha@));
    if sha.len() > 12 {
        sha.is_char_boundary(12)
    } else {
        true
    }
}

/// Whether every commit sha that the update comment shortens can be sliced
/// at byte 12.
pub fn summaries_sha_sliceable(fixes: &Vec<QuickFixSummary>) -> (b: bool)
    ensures
        b == summaries_sliceable(fixes@),
{
    let mut k: usize = 0;
    while k < fixes.len()
        invariant
            k <= fixes@.len(),
            summaries_sliceable(fixes@.take(k as int)),
        decreases fixes@.len() - k,
    {
        match &fixes[k].commit_sha {
            Some(sha) => {
                if !commit_sha_sliceable(sha.as_str()) {
                    assert(!summaries_sliceable(fixes@)) by {
                        assert(fixes@[k as int].commit_sha == Some(*sha));
                    }
                    return false;
                }
            },
            None => {},
        }
        assert forall|j: int| 0 <= j < k + 1 implies match (#[trigger] fixes@.take(k + 1)[j]).commit_sha {
            Some(sha) => short_sha_sliceable(sha@),
            None => true,
        } by {
            if j < k {
                assert(fixes@.take(k + 1)[j] == fixes@.take(k as int)[j]);
            }
        }
        k = k + 1;
    }
    assert(fixes@.take(fixes@.len() as int) =~= fixes@);
    true
}

// ---------------------------------------------------------------------------
// The `--act` run
// ---------------------------------------------------------------------------

/// What a `pr-comments --act` run waits on.
#[derive(Debug, Clone, PartialEq, Eq)]
pub enum PrCommentsStage {
    /// The item at `next_item` is up next.
    NextItem,
    /// The quick fix of the current item runs.
    AwaitingQuickFix,
    /// The follow-up pull request of the current item is being created.
    AwaitingFollowUpPr(QuickFixExecutionResult),
    /// The review thread of the current item is being resolved.
    AwaitingThreadResolution(QuickFixExecutionResult),
    /// The follow-up issue of the current item is being created.
    AwaitingIssue,
    /// The pull-request update comment is being posted.
    AwaitingUpdateComment,
    /// The run is over.
    Done,
}

/// A `pr-comments --act` run.
#[derive(Debug, PartialEq, Eq)]
pub struct PrCommentsAct {
    pub repo: String,
    pub pr: u64,
    pub dry_run: bool,
    pub max_mutations_per_run: Option<usize>,
    /// Why quick fixes cannot have worktrees, if they cannot.
    pub quick_fix_root_error: Option<String>,
    /// The commit quick-fix branches start at, or why it is unknown.
    pub base_sha: Result<String, String>,
    /// The base branch of the pull request, if known.
    pub base_branch: Option<String>,
    pub items: Vec<ProcessCommentTriageItem>,
    pub counts: ProcessTriageCounts,
    pub created_issues: Vec<ProcessCreatedIssue>,
    pub successful_quick_fixes: Vec<QuickFixSummary>,
    pub mutation_count: usize,
    pub next_item: usize,
    pub stage: PrCommentsStage,
    pub pr_update_comment_url: Option<String>,
}

/// What the caller does next.
#[derive(Debug, Clone, PartialEq, Eq)]
pub enum PrCommentsAction {
    /// Run the quick fix of item `item_index` on its own branch from
    /// `base_sha`.
    RunQuickFix { item_index: usize, base_sha: String },
    /// Open a pull request from `head_branch` onto `base_branch`.
    CreateFollowUpPr { base_branch: String, head_branch: String, title: String, body: String },
    /// Resolve this review thread.
    ResolveThread { thread_id: String },
    /// Open an issue.
    CreateIssue { title: String, body: String },
    /// Comment on the pull request.
    PostUpdateComment { body: String },
    /// The current item is settled without an outside action; call again
    /// with `Continue` to take up the next one.
    NextItem,
    /// The run fails with this error.
    Fail(String),
    /// The run is over.
    Done,
}

/// The outcome of the last action.
#[derive(Debug, PartialEq, Eq)]
pub enum PrCommentsEvent {
    /// Nothing to report: the run starts.
    Continue,
    QuickFixFinished(QuickFixExecutionResult),
    /// What `gh pr create` printed, or the error.
    FollowUpPrFinished(Result<String, String>),
    ThreadResolutionFinished(Result<(), String>),
    /// What `gh issue create` printed.
    IssueCreated(String),
    /// What `gh pr comment` printed.
    UpdateCommentPosted(String),
}

/// Whether the action changes something outside the run.
pub open spec fn mutating(a: PrCommentsAction) -> bool {
    ||| a is RunQuickFix
    ||| a is CreateFollowUpPr
    ||| a is ResolveThread
    ||| a is CreateIssue
    ||| a is PostUpdateComment
}

pub open spec fn within_cap(count: usize, cap: Option<usize>) -> bool {
    match cap {
        Some(c) => count <= c,
        None => true,
    }
}

/// How many mutations the run may have scheduled by its stage: at most
/// three per item, and one for the update comment.
pub open spec fn spent_ok(run: PrCommentsAct) -> bool {
    let base = 3 * run.next_item;
    match run.stage {
        PrCommentsStage::NextItem => run.mutation_count <= base,
        PrCommentsStage::AwaitingQuickFix => run.mutation_count <= base + 1,
        PrCommentsStage::AwaitingIssue => run.mutation_count <= base + 1,
        PrCommentsStage::AwaitingFollowUpPr(_) => run.mutation_count <= base + 2,
        PrCommentsStage::AwaitingThreadResolution(_) => run.mutation_count <= base + 3,
        PrCommentsStage::AwaitingUpdateComment => run.mutation_count <= base + 1,
        PrCommentsStage::Done => run.mutation_count <= base + 1,
    }
}

/// The run's invariant.
pub open spec fn act_wf(run: PrCommentsAct) -> bool {
    act_core(run) && spent_ok(run)
}

/// The run's invariant apart from the mutation budget of its stage.
pub open spec fn act_core(run: PrCommentsAct) -> bool {
    &&& run.next_item <= run.items@.len()
    &&& 4 * run.items@.len() <= usize::MAX
    &&& within_cap(run.mutation_count, run.max_mutations_per_run)
    &&& match run.stage {
        PrCommentsStage::NextItem => true,
        PrCommentsStage::AwaitingUpdateComment => run.next_item == run.items@.len(),
        PrCommentsStage::Done => true,
        PrCommentsStage::AwaitingFollowUpPr(e) => run.next_item < run.items@.len() && e.success,
        PrCommentsStage::AwaitingThreadResolution(e) => run.next_item < run.items@.len(),
        _ => run.next_item < run.items@.len(),
    }
    &&& run.dry_run ==> (run.stage is NextItem || run.stage is Done)
}

/// Whether the next step posts the update comment: the last item is done,
/// the run is not a dry run, some quick fix succeeded and the cap allows one
/// more mutation. Building its body shortens each commit sha at byte 12.
pub open spec fn update_comment_due(run: PrCommentsAct) -> bool {
    &&& run.stage == PrCommentsStage::NextItem
    &&& !run.dry_run
    &&& run.next_item == run.items@.len()
    &&& run.successful_quick_fixes@.len() > 0
    &&& !cap_reached(run.mutation_count, run.max_mutations_per_run)
}

/// Whether the run may take its next step without shortening a commit sha
/// that cannot be sliced at byte 12.
pub fn update_comment_body_ready(run: &PrCommentsAct) -> (b: bool)
    ensures
        b == (update_comment_due(*run) ==> summaries_sliceable(run.successful_quick_fixes@)),
{
    let due = match run.stage {
        PrCommentsStage::NextItem => true,
        _ => false,
    } && !run.dry_run && run.next_item == run.items.len() && run.successful_quick_fixes.len() > 0
        && match run.max_mutations_per_run {
        Some(cap) => run.mutation_count < cap,
        None => true,
    };
    if due {
        summaries_sha_sliceable(&run.successful_quick_fixes)
    } else {
        true
    }
}

/// Whether `event` answers what the run waits on.
pub open spec fn event_fits(stage: PrCommentsStage, event: PrCommentsEvent) -> bool {
    match stage {
        PrCommentsStage::NextItem => event is Continue,
        PrCommentsStage::AwaitingQuickFix => event is QuickFixFinished,
        PrCommentsStage::AwaitingFollowUpPr(_) => event is FollowUpPrFinished,
        PrCommentsStage::AwaitingThreadResolution(_) => event is ThreadResolutionFinished,
        PrCommentsStage::AwaitingIssue => event is IssueCreated,
        PrCommentsStage::AwaitingUpdateComment => event is UpdateCommentPosted,
        PrCommentsStage::Done => false,
    }
}

/// What stays fixed during a run.
pub open spec fn same_run(a: PrCommentsAct, b: PrCommentsAct) -> bool {
    &&& a.repo == b.repo
    &&& a.pr == b.pr
    &&& a.dry_run == b.dry_run
    &&& a.max_mutations_per_run == b.max_mutations_per_run
    &&& a.quick_fix_root_error == b.quick_fix_root_error
    &&& a.base_sha == b.base_sha
    &&& a.base_branch == b.base_branch
    &&& a.counts == b.counts
    &&& a.items@.len() == b.items@.len()
}

/// How `b` went on from `a`: items are taken in order, counters only grow,
/// and issues and fixes already recorded stay.
pub open spec fn progressed(a: PrCommentsAct, b: PrCommentsAct) -> bool {
    &&& same_run(a, b)
    &&& a.next_item <= b.next_item
    &&& a.mutation_count <= b.mutation_count
    &&& b.created_issues@.len() >= a.created_issues@.len()
    &&& forall|k: int|
        0 <= k < a.created_issues@.len() ==> #[trigger] b.created_issues@[k] == a.created_issues@[k]
    &&& b.successful_quick_fixes@.len() >= a.successful_quick_fixes@.len()
    &&& forall|k: int|
        0 <= k < a.successful_quick_fixes@.len() ==> #[trigger] b.successful_quick_fixes@[k]
            == a.successful_quick_fixes@[k]
}

/// The issue URLs recorded on the items stay as they are.
pub open spec fn issue_urls_kept(a: PrCommentsAct, b: PrCommentsAct) -> bool {
    forall|k: int|
        0 <= k < a.items@.len() ==> #[trigger] b.items@[k].created_issue_url == a.items@[k].created_issue_url
}

/// Starts a run over the comments of a pull request.
pub fn start_pr_comments_act(
    repo: String,
    pr: u64,
    dry_run: bool,
    max_mutations_per_run: Option<usize>,
    review_comments: Vec<UnresolvedReviewComment>,
    issue_comments: Vec<OpenIssueComment>,
    quick_fix_root_error: Option<String>,
    base_sha: Result<String, String>,
    base_branch: Option<String>,
) -> (r: PrCommentsAct)
    requires
        4 * (review_comments@.len() + issue_comments@.len()) <= usize::MAX,
    ensures
        act_wf(r),
        r.stage == PrCommentsStage::NextItem,
        r.repo == repo && r.pr == pr && r.dry_run == dry_run,
        r.max_mutations_per_run == max_mutations_per_run,
        r.quick_fix_root_error == quick_fix_root_error,
        r.base_sha == base_sha && r.base_branch == base_branch,
        r.items@.len() == review_comments@.len() + issue_comments@.len(),
        forall|i: int|
            0 <= i < review_comments@.len() ==> review_item(#[trigger] r.items@[i], review_comments@[i], dry_run),
        forall|i: int|
            0 <= i < issue_comments@.len() ==> conversation_item(
                #[trigger] r.items@[review_comments@.len() + i],
                issue_comments@[i],
                dry_run,
            ),
        r.counts.quick_fix == count_decision(r.items@, TriageDecision::QuickFix),
        r.counts.needs_issue == count_decision(r.items@, TriageDecision::NeedsIssue),
        r.counts.question == count_decision(r.items@, TriageDecision::Question),
        r.created_issues@.len() == 0,
        r.successful_quick_fixes@.len() == 0,
        r.mutation_count == 0,
        r.next_item == 0,
        r.pr_update_comment_url is None,
{
    let items = build_triage_items(review_comments, issue_comments, dry_run);
    let counts = triage_counts(&items);
    PrCommentsAct {
        repo,
        pr,
        dry_run,
        max_mutations_per_run,
        quick_fix_root_error,
        base_sha,
        base_branch,
        items,
        counts,
        created_issues: Vec::new(),
        successful_quick_fixes: Vec::new(),
        mutation_count: 0,
        next_item: 0,
        stage: PrCommentsStage::NextItem,
        pr_update_comment_url: None,
    }
}

pub open spec fn base_sha_message(e: Seq<char>) -> Seq<char> {
    "Unable to read current git HEAD for quick-fix branching: "@ + e
}

pub open spec fn thread_cap_message() -> Seq<char> {
    "Skipped review-thread resolution: max mutations-per-run cap reached."@
}

/// The base branch of follow-up pull requests: the source pull request's
/// base branch when it is known, else `main`.
pub open spec fn follow_up_base(base_branch: Option<String>) -> Seq<char> {
    match base_branch {
        Some(b) => b@,
        None => "main"@,
    }
}

/// `b` holds the items, created issues and successful fixes given, the
/// mutation count, the cursor and the stage; everything else is as in `a`.
pub open spec fn run_is(
    a: PrCommentsAct,
    b: PrCommentsAct,
    items: Seq<ProcessCommentTriageItem>,
    issues: Seq<ProcessCreatedIssue>,
    fixes: Seq<QuickFixSummary>,
    count: int,
    next: int,
    stage: PrCommentsStage,
) -> bool {
    &&& same_run(a, b)
    &&& b.items@ == items
    &&& b.created_issues@ == issues
    &&& b.successful_quick_fixes@ == fixes
    &&& b.mutation_count == count
    &&& b.next_item == next
    &&& b.stage == stage
    &&& b.pr_update_comment_url == a.pr_update_comment_url
}

/// `y` is `x` with the max mutations-per-run reason recorded.
pub open spec fn reason_added(x: ProcessCommentTriageItem, y: ProcessCommentTriageItem) -> bool {
    &&& y.skipped_reasons@ == x.skipped_reasons@.push(
        ProcessMutationSkipReason::MaxMutationsPerRunReached,
    )
    &&& y == (ProcessCommentTriageItem { skipped_reasons: y.skipped_reasons, ..x })
}

/// `y` is `x` after the cap refused to resolve its review thread: the
/// reason is recorded and the thread is marked unresolved with the cap
/// message.
pub open spec fn thread_skipped_by_cap(x: ProcessCommentTriageItem, y: ProcessCommentTriageItem) -> bool {
    &&& y.skipped_reasons@ == x.skipped_reasons@.push(
        ProcessMutationSkipReason::MaxMutationsPerRunReached,
    )
    &&& y.quick_fix_thread_resolved == Some(false)
    &&& opt_str_view(y.quick_fix_thread_resolve_error) == Some(thread_cap_message())
    &&& y == (ProcessCommentTriageItem {
        skipped_reasons: y.skipped_reasons,
        quick_fix_thread_resolved: Some(false),
        quick_fix_thread_resolve_error: y.quick_fix_thread_resolve_error,
        ..x
    })
}

/// `e2` is `e` with its pull-request error set to `message`.
pub open spec fn with_pr_error(
    e: QuickFixExecutionResult,
    e2: QuickFixExecutionResult,
    message: Seq<char>,
) -> bool {
    &&& opt_str_view(e2.pr_error) == Some(message)
    &&& e2 == (QuickFixExecutionResult { pr_error: e2.pr_error, ..e })
}

/// The current item closes as `y` after execution `e`, with `count`
/// mutations scheduled: a successful fix joins the update comment, a failed
/// one leaves a manual to-do; the cursor moves to the next item.
pub open spec fn item_closed(
    a: PrCommentsAct,
    y: ProcessCommentTriageItem,
    e: QuickFixExecutionResult,
    count: int,
    b: PrCommentsAct,
    r: PrCommentsAction,
) -> bool {
    let i = a.next_item as int;
    &&& r == PrCommentsAction::NextItem
    &&& if e.success {
        &&& b.items@ == a.items@.update(i, y)
        &&& b.successful_quick_fixes@.len() == a.successful_quick_fixes@.len() + 1
        &&& b.successful_quick_fixes@ == a.successful_quick_fixes@.push(
            b.successful_quick_fixes@.last(),
        )
        &&& summary_for(b.successful_quick_fixes@.last(), y, e)
    } else {
        &&& opt_str_view(b.items@[i].todo) == Some(manual_quick_fix_todo(y))
        &&& b.items@[i] == (ProcessCommentTriageItem { todo: b.items@[i].todo, ..y })
        &&& b.items@ == a.items@.update(i, b.items@[i])
        &&& b.successful_quick_fixes@ == a.successful_quick_fixes@
    }
    &&& same_run(a, b)
    &&& b.created_issues@ == a.created_issues@
    &&& b.mutation_count == count
    &&& b.next_item == i + 1
    &&& b.stage == PrCommentsStage::NextItem
    &&& b.pr_update_comment_url == a.pr_update_comment_url
}

/// What follows once the execution `e` of the current item (now `item`) is
/// final, with `count` mutations scheduled: the quick-fix fields are
/// recorded; a review comment whose fix got a follow-up pull request has its
/// thread resolved, within the cap, or the refusal recorded; then the item
/// closes.
pub open spec fn fix_settled(
    a: PrCommentsAct,
    item: ProcessCommentTriageItem,
    count: usize,
    e: QuickFixExecutionResult,
    b: PrCommentsAct,
    r: PrCommentsAction,
) -> bool {
    let i = a.next_item as int;
    let wants = e.follow_up_pr_url is Some && item.source@ == "review_comment"@
        && item.review_thread_id is Some;
    if wants && !cap_reached(count, a.max_mutations_per_run) {
        &&& r matches PrCommentsAction::ResolveThread { thread_id } && item.review_thread_id == Some(
            thread_id,
        )
        &&& recorded_execution(item, b.items@[i], e)
        &&& run_is(
            a,
            b,
            a.items@.update(i, b.items@[i]),
            a.created_issues@,
            a.successful_quick_fixes@,
            count + 1,
            i,
            PrCommentsStage::AwaitingThreadResolution(e),
        )
    } else if wants {
        exists|x: ProcessCommentTriageItem, y: ProcessCommentTriageItem|
            #![trigger recorded_execution(item, x, e), item_closed(a, y, e, count as int, b, r)]
            recorded_execution(item, x, e) && thread_skipped_by_cap(x, y) && item_closed(
                a,
                y,
                e,
                count as int,
                b,
                r,
            )
    } else {
        exists|x: ProcessCommentTriageItem|
            recorded_execution(item, x, e) && #[trigger] item_closed(a, x, e, count as int, b, r)
    }
}

/// What follows the quick fix of the current item with execution `e`, with
/// `count` mutations scheduled: a successful fix gets a follow-up pull
/// request from its branch onto the source pull request's base branch (else
/// `main`), within the cap; a refusal by the cap, or a missing branch, is
/// recorded as the pull-request error (and the cap's reason on the item).
pub open spec fn quick_fix_settled(
    a: PrCommentsAct,
    count: usize,
    e: QuickFixExecutionResult,
    b: PrCommentsAct,
    r: PrCommentsAction,
) -> bool {
    let i = a.next_item as int;
    let item = a.items@[i];
    if e.success && !cap_reached(count, a.max_mutations_per_run) {
        match e.branch_name {
            Some(head) => {
                &&& r matches PrCommentsAction::CreateFollowUpPr { base_branch, head_branch, title, body }
                    && base_branch@ == follow_up_base(a.base_branch) && head_branch == head
                    && title@ == commit_message_for_comment(a.pr, item.comment_id@) && body@
                    == quick_fix_follow_up_pr_body(
                    a.repo@,
                    a.pr,
                    item.comment_url@,
                    item.body@,
                    opt_str_view(e.commit_url),
                )
                &&& run_is(
                    a,
                    b,
                    a.items@,
                    a.created_issues@,
                    a.successful_quick_fixes@,
                    count + 1,
                    i,
                    PrCommentsStage::AwaitingFollowUpPr(e),
                )
            },
            None => exists|e2: QuickFixExecutionResult|
                with_pr_error(e, e2, missing_branch_message()) && #[trigger] fix_settled(
                    a,
                    item,
                    (count + 1) as usize,
                    e2,
                    b,
                    r,
                ),
        }
    } else if e.success {
        exists|y: ProcessCommentTriageItem, e2: QuickFixExecutionResult|
            reason_added(item, y) && with_pr_error(e, e2, pr_cap_message()) && #[trigger] fix_settled(
                a,
                y,
                count,
                e2,
                b,
                r,
            )
    } else {
        fix_settled(a, item, count, e, b, r)
    }
}

/// Taking up the item at the cursor: a question passes; under the cap a
/// follow-up issue is opened for an issue-worthy comment and a quick fix
/// runs for the others (or fails at once when its worktree or base commit
/// is unavailable); over the cap the item is skipped with the reason.
pub open spec fn item_begun(a: PrCommentsAct, b: PrCommentsAct, r: PrCommentsAction) -> bool {
    let i = a.next_item as int;
    let item = a.items@[i];
    let count = a.mutation_count;
    if item.decision == TriageDecision::Question {
        &&& r == PrCommentsAction::NextItem
        &&& run_is(
            a,
            b,
            a.items@,
            a.created_issues@,
            a.successful_quick_fixes@,
            count as int,
            i + 1,
            PrCommentsStage::NextItem,
        )
    } else if cap_reached(count, a.max_mutations_per_run) {
        &&& r == PrCommentsAction::NextItem
        &&& skipped_by_cap(item, b.items@[i])
        &&& run_is(
            a,
            b,
            a.items@.update(i, b.items@[i]),
            a.created_issues@,
            a.successful_quick_fixes@,
            count as int,
            i + 1,
            PrCommentsStage::NextItem,
        )
    } else if item.decision == TriageDecision::NeedsIssue {
        &&& r matches PrCommentsAction::CreateIssue { title, body } && title@ == follow_up_issue_title(
            a.pr,
            item.author@,
            item.body@,
        ) && body@ == follow_up_issue_body(a.repo@, a.pr, item.comment_url@, item.body@)
        &&& run_is(
            a,
            b,
            a.items@,
            a.created_issues@,
            a.successful_quick_fixes@,
            count + 1,
            i,
            PrCommentsStage::AwaitingIssue,
        )
    } else {
        match a.quick_fix_root_error {
            Some(err) => exists|e: QuickFixExecutionResult|
                failed_without_output(e, false, err@) && #[trigger] quick_fix_settled(
                    a,
                    (count + 1) as usize,
                    e,
                    b,
                    r,
                ),
            None => match a.base_sha {
                Ok(sha) => {
                    &&& r == (PrCommentsAction::RunQuickFix { item_index: a.next_item, base_sha: sha })
                    &&& run_is(
                        a,
                        b,
                        a.items@,
                        a.created_issues@,
                        a.successful_quick_fixes@,
                        count + 1,
                        i,
                        PrCommentsStage::AwaitingQuickFix,
                    )
                },
                Err(m) => exists|e: QuickFixExecutionResult|
                    failed_without_output(e, false, base_sha_message(m@)) && #[trigger] quick_fix_settled(
                        a,
                        (count + 1) as usize,
                        e,
                        b,
                        r,
                    ),
            },
        }
    }
}

/// `y` is `x` after the cap refused the update comment: a successful quick
/// fix records the reason; every other item stays.
pub open spec fn update_refused(x: ProcessCommentTriageItem, y: ProcessCommentTriageItem) -> bool {
    if x.quick_fix_success == Some(true) {
        reason_added(x, y)
    } else {
        y == x
    }
}

/// After the last item: with successful quick fixes the pull request gets
/// one update comment listing them, within the cap; a refusal is recorded
/// on each successful item. Otherwise the run is over.
pub open spec fn run_finished(a: PrCommentsAct, b: PrCommentsAct, r: PrCommentsAction) -> bool {
    let count = a.mutation_count;
    if a.successful_quick_fixes@.len() == 0 {
        &&& r == PrCommentsAction::Done
        &&& run_is(
            a,
            b,
            a.items@,
            a.created_issues@,
            a.successful_quick_fixes@,
            count as int,
            a.next_item as int,
            PrCommentsStage::Done,
        )
    } else if cap_reached(count, a.max_mutations_per_run) {
        &&& r == PrCommentsAction::Done
        &&& b.items@.len() == a.items@.len()
        &&& forall|k: int| 0 <= k < a.items@.len() ==> update_refused(a.items@[k], #[trigger] b.items@[k])
        &&& run_is(
            a,
            b,
            b.items@,
            a.created_issues@,
            a.successful_quick_fixes@,
            count as int,
            a.next_item as int,
            PrCommentsStage::Done,
        )
    } else {
        &&& r matches PrCommentsAction::PostUpdateComment { body } && body@ == pr_update_comment_body(
            a.successful_quick_fixes@,
        )
        &&& run_is(
            a,
            b,
            a.items@,
            a.created_issues@,
            a.successful_quick_fixes@,
            count + 1,
            a.next_item as int,
            PrCommentsStage::AwaitingUpdateComment,
        )
    }
}

/// The follow-up issue of the current item was opened at `url`: the item
/// and the run's list of created issues record it.
pub open spec fn issue_recorded(a: PrCommentsAct, b: PrCommentsAct, url: Seq<char>) -> bool {
    let i = a.next_item as int;
    let item = a.items@[i];
    &&& opt_str_view(b.items@[i].created_issue_url) == Some(url)
    &&& b.items@[i] == (ProcessCommentTriageItem {
        created_issue_url: b.items@[i].created_issue_url,
        ..item
    })
    &&& b.created_issues@.len() == a.created_issues@.len() + 1
    &&& b.created_issues@.last().source_comment_id == item.comment_id
    &&& b.created_issues@.last().source_comment_url == item.comment_url
    &&& b.created_issues@.last().issue_url@ == url
    &&& run_is(
        a,
        b,
        a.items@.update(i, b.items@[i]),
        a.created_issues@.push(b.created_issues@.last()),
        a.successful_quick_fixes@,
        a.mutation_count as int,
        i + 1,
        PrCommentsStage::NextItem,
    )
}

/// One step of a run from `a` with `event` to `b` and action `r`.
pub open spec fn pr_step(a: PrCommentsAct, event: PrCommentsEvent, b: PrCommentsAct, r: PrCommentsAction) -> bool {
    let i = a.next_item as int;
    let count = a.mutation_count;
    match a.stage {
        PrCommentsStage::NextItem => if a.dry_run {
            &&& r == PrCommentsAction::Done
            &&& run_is(
                a,
                b,
                a.items@,
                a.created_issues@,
                a.successful_quick_fixes@,
                count as int,
                a.items@.len() as int,
                PrCommentsStage::Done,
            )
        } else if a.next_item < a.items@.len() {
            item_begun(a, b, r)
        } else {
            run_finished(a, b, r)
        },
        PrCommentsStage::AwaitingQuickFix => match event {
            PrCommentsEvent::QuickFixFinished(e) => quick_fix_settled(a, count, e, b, r),
            _ => true,
        },
        PrCommentsStage::AwaitingFollowUpPr(e) => match event {
            PrCommentsEvent::FollowUpPrFinished(res) => exists|e2: QuickFixExecutionResult|
                with_follow_up_pr(e, e2, res) && #[trigger] fix_settled(a, a.items@[i], count, e2, b, r),
            _ => true,
        },
        PrCommentsStage::AwaitingThreadResolution(e) => match event {
            PrCommentsEvent::ThreadResolutionFinished(res) => exists|y: ProcessCommentTriageItem|
                with_thread_resolution(a.items@[i], y, res) && #[trigger] item_closed(
                    a,
                    y,
                    e,
                    count as int,
                    b,
                    r,
                ),
            _ => true,
        },
        PrCommentsStage::AwaitingIssue => match event {
            PrCommentsEvent::IssueCreated(text) => match first_url(text@) {
                Some(u) => r == PrCommentsAction::NextItem && issue_recorded(a, b, u),
                None => {
                    &&& r matches PrCommentsAction::Fail(m) && m@
                        == crate::gh_requests::missing_issue_url_message(text@)
                    &&& run_is(
                        a,
                        b,
                        a.items@,
                        a.created_issues@,
                        a.successful_quick_fixes@,
                        count as int,
                        i,
                        PrCommentsStage::Done,
                    )
                },
            },
            _ => true,
        },
        PrCommentsStage::AwaitingUpdateComment => match event {
            PrCommentsEvent::UpdateCommentPosted(text) => {
                &&& r == PrCommentsAction::Done
                &&& opt_str_view(b.pr_update_comment_url) == first_url(text@)
                &&& same_run(a, b)
                &&& b.items@ == a.items@
                &&& b.created_issues@ == a.created_issues@
                &&& b.successful_quick_fixes@ == a.successful_quick_fixes@
                &&& b.mutation_count == count
                &&& b.next_item == a.next_item
                &&& b.stage == PrCommentsStage::Done
            },
            _ => true,
        },
        PrCommentsStage::Done => true,
    }
}

/// `run` is `a` at its current item: only that item, the mutation count
/// and the stage may differ.
spec fn at_item(a: PrCommentsAct, run: PrCommentsAct) -> bool {
    &&& a.next_item < a.items@.len()
    &&& same_run(a, run)
    &&& run.items@ == a.items@.update(a.next_item as int, run.items@[a.next_item as int])
    &&& run.created_issues@ == a.created_issues@
    &&& run.successful_quick_fixes@ == a.successful_quick_fixes@
    &&& run.next_item == a.next_item
    &&& run.pr_update_comment_url == a.pr_update_comment_url
}

/// Ends the current quick-fix item with `execution`: a successful fix joins
/// the update comment, a failed one leaves a manual to-do.
fn finish_quick_fix_item(run: &mut PrCommentsAct, execution: QuickFixExecutionResult, Ghost(a): Ghost<PrCommentsAct>)
    requires
        act_core(*old(run)),
        old(run).stage == PrCommentsStage::NextItem,
        old(run).next_item < old(run).items@.len(),
        !old(run).dry_run,
        old(run).mutation_count <= 3 * old(run).next_item + 3,
        at_item(a, *old(run)),
    ensures
        act_wf(*final(run)),
        progressed(*old(run), *final(run)),
        issue_urls_kept(*old(run), *final(run)),
        final(run).stage == PrCommentsStage::NextItem,
        final(run).next_item == old(run).next_item + 1,
        final(run).mutation_count == old(run).mutation_count,
        item_closed(
            a,
            old(run).items@[old(run).next_item as int],
            execution,
            old(run).mutation_count as int,
            *final(run),
            PrCommentsAction::NextItem,
        ),
{
    let i = run.next_item;
    let ghost y = run.items@[i as int];
    if execution.success {
        let s = quick_fix_summary(&run.items[i], execution);
        run.successful_quick_fixes.push(s);
        assert(run.items@ =~= a.items@.update(i as int, y));
    } else {
        let todo = todo_text("TODO: manual quick fix for comment ", &run.items[i]);
        run.items[i].todo = Some(todo);
        assert(run.items@ =~= a.items@.update(i as int, run.items@[i as int]));
    }
    run.next_item = i + 1;
    run.stage = PrCommentsStage::NextItem;
}

/// The current quick-fix item after its follow-up pull request: the
/// execution is recorded, then its review thread is resolved when the pull
/// request exists, within the cap.
fn after_follow_up_pr(run: &mut PrCommentsAct, execution: QuickFixExecutionResult, Ghost(a): Ghost<PrCommentsAct>) -> (r: PrCommentsAction)
    requires
        act_core(*old(run)),
        old(run).stage == PrCommentsStage::NextItem,
        old(run).next_item < old(run).items@.len(),
        !old(run).dry_run,
        old(run).mutation_count <= 3 * old(run).next_item + 2,
        at_item(a, *old(run)),
    ensures
        act_wf(*final(run)),
        progressed(*old(run), *final(run)),
        issue_urls_kept(*old(run), *final(run)),
        fix_settled(
            a,
            old(run).items@[old(run).next_item as int],
            old(run).mutation_count,
            execution,
            *final(run),
            r,
        ),
        r is ResolveThread ==> {
            &&& final(run).mutation_count == old(run).mutation_count + 1
            &&& final(run).stage is AwaitingThreadResolution
            &&& final(run).next_item == old(run).next_item
        },
        !(r is ResolveThread) ==> {
            &&& r == PrCommentsAction::NextItem
            &&& final(run).stage == PrCommentsStage::NextItem
            &&& final(run).next_item == old(run).next_item + 1
        },
{
    let i = run.next_item;
    let ghost item = run.items@[i as int];
    let ghost count0 = run.mutation_count;
    record_execution(&mut run.items[i], &execution);
    let ghost x = run.items@[i as int];
    assert(run.items@ =~= a.items@.update(i as int, x));
    let wants = execution.follow_up_pr_url.is_some() && str_eq_review(&run.items[i].source)
        && run.items[i].review_thread_id.is_some();
    if wants {
        let thread_id = match &run.items[i].review_thread_id {
            Some(t) => t.clone(),
            None => String::new(),
        };
        match try_schedule_mutation(&mut run.mutation_count, run.max_mutations_per_run) {
            Some(reason) => {
                run.items[i].skipped_reasons.push(reason);
                run.items[i].quick_fix_thread_resolved = Some(false);
                run.items[i].quick_fix_thread_resolve_error = Some(
                    String::from_str("Skipped review-thread resolution: max mutations-per-run cap reached."),
                );
                let ghost y = run.items@[i as int];
                assert(run.items@ =~= a.items@.update(i as int, y));
                assert(thread_skipped_by_cap(x, y));
                finish_quick_fix_item(run, execution, Ghost(a));
                assert(recorded_execution(item, x, execution));
                assert(item_closed(a, y, execution, count0 as int, *run, PrCommentsAction::NextItem));
                return PrCommentsAction::NextItem;
            },
            None => {
                run.stage = PrCommentsStage::AwaitingThreadResolution(execution);
                assert(run.items@ =~= a.items@.update(i as int, run.items@[i as int]));
                return PrCommentsAction::ResolveThread { thread_id };
            },
        }
    }
    finish_quick_fix_item(run, execution, Ghost(a));
    assert(recorded_execution(item, x, execution));
    assert(item_closed(a, x, execution, count0 as int, *run, PrCommentsAction::NextItem));
    PrCommentsAction::NextItem
}

fn str_eq_review(s: &String) -> (b: bool)
    ensures
        b == (s@ == "review_comment"@),
{
    crate::text::str_eq(s.as_str(), "review_comment")
}

/// The current quick-fix item once its quick fix ran: a successful fix gets
/// a follow-up pull request, within the cap.
fn after_quick_fix(run: &mut PrCommentsAct, execution: QuickFixExecutionResult, Ghost(a): Ghost<PrCommentsAct>) -> (r: PrCommentsAction)
    requires
        act_core(*old(run)),
        old(run).stage == PrCommentsStage::NextItem,
        old(run).next_item < old(run).items@.len(),
        !old(run).dry_run,
        old(run).mutation_count <= 3 * old(run).next_item + 1,
        at_item(a, *old(run)),
        old(run).items@[old(run).next_item as int] == a.items@[a.next_item as int],
    ensures
        act_wf(*final(run)),
        progressed(*old(run), *final(run)),
        issue_urls_kept(*old(run), *final(run)),
        quick_fix_settled(a, old(run).mutation_count, execution, *final(run), r),
        r is CreateFollowUpPr || r is ResolveThread ==> {
            &&& final(run).mutation_count >= old(run).mutation_count + 1
            &&& final(run).next_item == old(run).next_item
            &&& final(run).stage != PrCommentsStage::Done
        },
        !(r is CreateFollowUpPr || r is ResolveThread) ==> {
            &&& r == PrCommentsAction::NextItem
            &&& final(run).stage == PrCommentsStage::NextItem
            &&& final(run).next_item == old(run).next_item + 1
        },
{
    let i = run.next_item;
    let ghost item = run.items@[i as int];
    let ghost count0 = run.mutation_count;
    assert(run.items@ =~= a.items@);
    if execution.success {
        match try_schedule_mutation(&mut run.mutation_count, run.max_mutations_per_run) {
            Some(reason) => {
                run.items[i].skipped_reasons.push(reason);
                let ghost y = run.items@[i as int];
                assert(reason_added(item, y));
                assert(run.items@ =~= a.items@.update(i as int, y));
                let mut e2 = execution;
                e2.pr_error = Some(
                    String::from_str("Skipped follow-up PR creation: max mutations-per-run cap reached."),
                );
                assert(with_pr_error(execution, e2, pr_cap_message()));
                let r = after_follow_up_pr(run, e2, Ghost(a));
                assert(fix_settled(a, y, count0, e2, *run, r));
                return r;
            },
            None => {
                match &execution.branch_name {
                    Some(head) => {
                        let head_branch = head.clone();
                        let base_branch = match &run.base_branch {
                            Some(b) => b.clone(),
                            None => String::from_str("main"),
                        };
                        let title = quick_fix_commit_message(run.pr, run.items[i].comment_id.as_str());
                        let commit_url = match &execution.commit_url {
                            Some(u) => Some(u.as_str()),
                            None => None,
                        };
                        let body = format_quick_fix_follow_up_pr_body(
                            run.repo.as_str(),
                            run.pr,
                            &run.items[i],
                            commit_url,
                        );
                        assert(opt_ref_view(commit_url) == opt_str_view(execution.commit_url));
                        run.stage = PrCommentsStage::AwaitingFollowUpPr(execution);
                        return PrCommentsAction::CreateFollowUpPr { base_branch, head_branch, title, body };
                    },
                    None => {
                        let mut e2 = execution;
                        e2.pr_error = Some(
                            String::from_str("Unable to create follow-up PR: quick-fix branch name is missing."),
                        );
                        assert(with_pr_error(execution, e2, missing_branch_message()));
                        let r = after_follow_up_pr(run, e2, Ghost(a));
                        assert(fix_settled(a, item, (count0 + 1) as usize, e2, *run, r));
                        return r;
                    },
                }
            },
        }
    }
    after_follow_up_pr(run, execution, Ghost(a))
}

/// Takes up the item at the cursor: questions pass; quick fixes and
/// follow-up issues are scheduled within the cap or skipped.
fn begin_item(run: &mut PrCommentsAct) -> (r: PrCommentsAction)
    requires
        act_wf(*old(run)),
        old(run).stage == PrCommentsStage::NextItem,
        old(run).next_item < old(run).items@.len(),
        !old(run).dry_run,
    ensures
        act_wf(*final(run)),
        progressed(*old(run), *final(run)),
        issue_urls_kept(*old(run), *final(run)),
        item_begun(*old(run), *final(run), r),
        r is NextItem ==> {
            &&& final(run).stage == PrCommentsStage::NextItem
            &&& final(run).next_item == old(run).next_item + 1
        },
        !(r is NextItem) ==> {
            &&& mutating(r)
            &&& final(run).mutation_count >= old(run).mutation_count + 1
            &&& final(run).stage != PrCommentsStage::Done
        },
{
    let ghost a = *run;
    let i = run.next_item;
    let decision = run.items[i].decision;
    let is_question = match decision {
        TriageDecision::Question => true,
        _ => false,
    };
    let needs_issue = match decision {
        TriageDecision::NeedsIssue => true,
        _ => false,
    };
    if is_question {
        run.next_item = i + 1;
        return PrCommentsAction::NextItem;
    }
    match try_schedule_mutation(&mut run.mutation_count, run.max_mutations_per_run) {
        Some(_) => {
            skip_by_cap(&mut run.items[i]);
            assert(run.items@ =~= a.items@.update(i as int, run.items@[i as int]));
            run.next_item = i + 1;
            PrCommentsAction::NextItem
        },
        None => {
            if needs_issue {
                let item = &run.items[i];
                let title = format_follow_up_issue_title(run.pr, item.author.as_str(), item.body.as_str());
                let body = format_follow_up_issue_body(
                    run.repo.as_str(),
                    run.pr,
                    item.comment_url.as_str(),
                    item.body.as_str(),
                );
                run.stage = PrCommentsStage::AwaitingIssue;
                return PrCommentsAction::CreateIssue { title, body };
            }
            assert(a.items@ =~= a.items@.update(i as int, run.items@[i as int]));
            match &run.quick_fix_root_error {
                Some(e) => {
                    let execution = failed_execution(false, e.clone());
                    let ghost eg = execution;
                    let r = after_quick_fix(run, execution, Ghost(a));
                    assert(quick_fix_settled(a, (a.mutation_count + 1) as usize, eg, *run, r));
                    r
                },
                None => match &run.base_sha {
                    Ok(sha) => {
                        let base_sha = sha.clone();
                        run.stage = PrCommentsStage::AwaitingQuickFix;
                        PrCommentsAction::RunQuickFix { item_index: i, base_sha }
                    },
                    Err(e) => {
                        let mut m = String::from_str("Unable to read current git HEAD for quick-fix branching: ");
                        m.append(e.as_str());
                        let execution = failed_execution(false, m);
                        let ghost eg = execution;
                        let r = after_quick_fix(run, execution, Ghost(a));
                        assert(quick_fix_settled(a, (a.mutation_count + 1) as usize, eg, *run, r));
                        r
                    },
                },
            }
        },
    }
}

/// After the last item: the update comment lists the successful quick fixes,
/// within the cap; a refused comment is recorded on each of them.
fn finish_run(run: &mut PrCommentsAct) -> (r: PrCommentsAction)
    requires
        act_wf(*old(run)),
        old(run).stage == PrCommentsStage::NextItem,
        old(run).next_item == old(run).items@.len(),
        !old(run).dry_run,
        update_comment_due(*old(run)) ==> summaries_sliceable(old(run).successful_quick_fixes@),
    ensures
        act_wf(*final(run)),
        progressed(*old(run), *final(run)),
        issue_urls_kept(*old(run), *final(run)),
        run_finished(*old(run), *final(run), r),
        r is Done ==> final(run).stage == PrCommentsStage::Done,
        r is PostUpdateComment ==> final(run).stage == PrCommentsStage::AwaitingUpdateComment
            && final(run).mutation_count == old(run).mutation_count + 1,
        r is Done || r is PostUpdateComment,
{
    if run.successful_quick_fixes.len() == 0 {
        run.stage = PrCommentsStage::Done;
        return PrCommentsAction::Done;
    }
    match try_schedule_mutation(&mut run.mutation_count, run.max_mutations_per_run) {
        Some(reason) => {
            let n = run.items.len();
            let mut k: usize = 0;
            while k < n
                invariant
                    n == run.items@.len(),
                    k <= n,
                    act_wf(*run),
                    run.stage == PrCommentsStage::NextItem,
                    run.next_item == n,
                    progressed(*old(run), *run),
                    issue_urls_kept(*old(run), *run),
                    run.mutation_count == old(run).mutation_count,
                    reason == ProcessMutationSkipReason::MaxMutationsPerRunReached,
                    run.created_issues@ == old(run).created_issues@,
                    run.successful_quick_fixes@ == old(run).successful_quick_fixes@,
                    run.pr_update_comment_url == old(run).pr_update_comment_url,
                    forall|j: int| 0 <= j < k ==> update_refused(old(run).items@[j], #[trigger] run.items@[j]),
                    forall|j: int| k <= j < n ==> #[trigger] run.items@[j] == old(run).items@[j],
                decreases n - k,
            {
                if run.items[k].quick_fix_success == Some(true) {
                    run.items[k].skipped_reasons.push(reason);
                }
                assert(update_refused(old(run).items@[k as int], run.items@[k as int]));
                k = k + 1;
            }
            run.stage = PrCommentsStage::Done;
            PrCommentsAction::Done
        },
        None => {
            let body = format_pr_update_comment_body(run.successful_quick_fixes.as_slice());
            run.stage = PrCommentsStage::AwaitingUpdateComment;
            PrCommentsAction::PostUpdateComment { body }
        },
    }
}

/// One step of a `pr-comments --act` run: takes the outcome of the last
/// action and returns the next one (`pr_step`).
///
/// Items are taken in order, one per step. A dry run changes nothing and
/// ends at once. Every action that changes something outside the run is
/// scheduled against the mutation cap first, so the run never schedules more
/// than the cap allows; a scheduling that hits the cap is recorded on the
/// item instead.
pub fn process_mode_pr_comments(run: &mut PrCommentsAct, event: PrCommentsEvent) -> (r: PrCommentsAction)
    requires
        act_wf(*old(run)),
        event_fits(old(run).stage, event),
        update_comment_due(*old(run)) ==> summaries_sliceable(old(run).successful_quick_fixes@),
    ensures
        act_wf(*final(run)),
        progressed(*old(run), *final(run)),
        pr_step(*old(run), event, *final(run), r),
        old(run).dry_run ==> {
            &&& r is Done
            &&& final(run).items@ == old(run).items@
            &&& final(run).created_issues@ == old(run).created_issues@
            &&& final(run).pr_update_comment_url == old(run).pr_update_comment_url
            &&& final(run).mutation_count == old(run).mutation_count
        },
        r is Done ==> final(run).next_item == final(run).items@.len(),
        mutating(r) ==> final(run).mutation_count >= old(run).mutation_count + 1,
        (r is Done || r is Fail) <==> final(run).stage == PrCommentsStage::Done,
{
    let ghost a = *run;
    let mut stage = PrCommentsStage::Done;
    std::mem::swap(&mut stage, &mut run.stage);
    match stage {
        PrCommentsStage::NextItem => {
            run.stage = PrCommentsStage::NextItem;
            if run.dry_run {
                run.next_item = run.items.len();
                run.stage = PrCommentsStage::Done;
                PrCommentsAction::Done
            } else if run.next_item < run.items.len() {
                begin_item(run)
            } else {
                finish_run(run)
            }
        },
        PrCommentsStage::AwaitingQuickFix => match event {
            PrCommentsEvent::QuickFixFinished(execution) => {
                run.stage = PrCommentsStage::NextItem;
                assert(run.items@ =~= a.items@.update(a.next_item as int, run.items@[a.next_item as int]));
                after_quick_fix(run, execution, Ghost(a))
            },
            _ => PrCommentsAction::Done,
        },
        PrCommentsStage::AwaitingFollowUpPr(execution) => match event {
            PrCommentsEvent::FollowUpPrFinished(res) => {
                let mut execution = execution;
                let ghost e0 = execution;
                record_follow_up_pr(&mut execution, res);
                let ghost e2 = execution;
                run.stage = PrCommentsStage::NextItem;
                assert(run.items@ =~= a.items@.update(a.next_item as int, run.items@[a.next_item as int]));
                let r = after_follow_up_pr(run, execution, Ghost(a));
                assert(with_follow_up_pr(e0, e2, res));
                assert(fix_settled(a, a.items@[a.next_item as int], a.mutation_count, e2, *run, r));
                r
            },
            _ => PrCommentsAction::Done,
        },
        PrCommentsStage::AwaitingThreadResolution(execution) => match event {
            PrCommentsEvent::ThreadResolutionFinished(res) => {
                let i = run.next_item;
                let ghost resg = res;
                record_thread_resolution(&mut run.items[i], res);
                let ghost y = run.items@[i as int];
                run.stage = PrCommentsStage::NextItem;
                assert(run.items@ =~= a.items@.update(i as int, y));
                finish_quick_fix_item(run, execution, Ghost(a));
                assert(with_thread_resolution(a.items@[i as int], y, resg));
                assert(item_closed(a, y, execution, a.mutation_count as int, *run, PrCommentsAction::NextItem));
                PrCommentsAction::NextItem
            },
            _ => PrCommentsAction::Done,
        },
        PrCommentsStage::AwaitingIssue => match event {
            PrCommentsEvent::IssueCreated(text) => match follow_up_issue_created(text.as_str()) {
                Ok(url) => {
                    let i = run.next_item;
                    run.items[i].created_issue_url = Some(url.clone());
                    let created = ProcessCreatedIssue {
                        source_comment_id: run.items[i].comment_id.clone(),
                        source_comment_url: run.items[i].comment_url.clone(),
                        issue_url: url,
                    };
                    run.created_issues.push(created);
                    run.next_item = i + 1;
                    run.stage = PrCommentsStage::NextItem;
                    assert(run.items@ =~= a.items@.update(i as int, run.items@[i as int]));
                    PrCommentsAction::NextItem
                },
                Err(e) => PrCommentsAction::Fail(e),
            },
            _ => PrCommentsAction::Done,
        },
        PrCommentsStage::AwaitingUpdateComment => match event {
            PrCommentsEvent::UpdateCommentPosted(text) => {
                run.pr_update_comment_url = extract_first_url(text.as_str());
                PrCommentsAction::Done
            },
            _ => PrCommentsAction::Done,
        },
        PrCommentsStage::Done => PrCommentsAction::Done,
    }
}

pub open spec fn count_mutating(actions: Seq<PrCommentsAction>) -> nat
    decreases actions.len(),
{
    if actions.len() == 0 {
        0
    } else {
        count_mutating(actions.drop_last()) + if mutating(actions.last()) {
            1nat
        } else {
            0nat
        }
    }
}

/// Step `i` of a run went from `runs[i]` to `runs[i + 1]` with action
/// `actions[i]` as `process_mode_pr_comments` guarantees.
pub open spec fn step_guaranteed(runs: Seq<PrCommentsAct>, actions: Seq<PrCommentsAction>, i: int) -> bool {
    &&& progressed(runs[i], runs[i + 1])
    &&& mutating(actions[i]) ==> runs[i + 1].mutation_count >= runs[i].mutation_count + 1
}

/// Over the steps of a run, each as `process_mode_pr_comments` guarantees,
/// the actions that change something outside the run are no more than the
/// mutation cap.
pub proof fn law_mutating_actions_within_cap(runs: Seq<PrCommentsAct>, actions: Seq<PrCommentsAction>)
    requires
        runs.len() == actions.len() + 1,
        runs[0].mutation_count == 0,
        act_wf(runs.last()),
        forall|i: int| 0 <= i < actions.len() ==> #[trigger] step_guaranteed(runs, actions, i),
    ensures
        match runs[0].max_mutations_per_run {
            Some(cap) => count_mutating(actions) <= cap,
            None => true,
        },
{
    lemma_count_mutating_prefix(runs, actions, actions.len() as int);
    assert(actions.take(actions.len() as int) =~= actions);
}

proof fn lemma_count_mutating_prefix(runs: Seq<PrCommentsAct>, actions: Seq<PrCommentsAction>, k: int)
    requires
        runs.len() == actions.len() + 1,
        0 <= k <= actions.len(),
        runs[0].mutation_count == 0,
        forall|i: int| 0 <= i < actions.len() ==> #[trigger] step_guaranteed(runs, actions, i),
    ensures
        count_mutating(actions.take(k)) <= runs[k].mutation_count,
        runs[k].max_mutations_per_run == runs[0].max_mutations_per_run,
    decreases k,
{
    if k == 0 {
        assert(actions.take(0) =~= Seq::<PrCommentsAction>::empty());
    } else {
        lemma_count_mutating_prefix(runs, actions, k - 1);
        assert(actions.take(k).drop_last() =~= actions.take(k - 1));
        assert(step_guaranteed(runs, actions, k - 1));
    }
}

} // verus!
