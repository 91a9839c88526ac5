//! `process issues watch`: the open issues that carry a label, and what
//! `--act` does with each of them under the run's guardrails.
//!
//! Issues are acted on one at a time per worker; each is a flow driven by
//! its worker: `act_on_watched_issue` takes the outcome of the last action
//! and says which action comes next.

use crate::gh_requests::follow_up_pr_created;
use crate::pr_comments::clone_opt;
use crate::github::{issue_comment_url, parse_gh_issue_comment_output, pr_create_number, pr_create_url};
use crate::guardrails::{
    allowed_act_items, cap_reached, fetch_update_mutation_count, has_label, issue_has_confirm_label,
    opt_str_view,
    ProcessIssuesWatchActQueuePlan, ProcessMutationSkipReason,
};
use crate::markdown::{
    format_issue_watch_follow_up_pr_body, format_issue_watch_manual_follow_up_comment,
    format_issue_watch_success_comment, issue_watch_follow_up_pr_body, issue_watch_success_comment,
    manual_follow_up_comment,
};
use crate::model::{ProcessWatchIssue, ProcessWatchIssueCandidate, QuickFixExecutionResult};
use crate::quick_fix::{commit_message_for_issue, issue_watch_quick_fix_commit_message};
use crate::quick_fix_run::failed_execution;
use crate::text::dec;
use crate::triage::{
    classify_issue_watch_triage, format_issues_watch_planned_action, issue_triage,
    issues_watch_planned_action, IssueWatchDecision,
};
use std::sync::atomic::AtomicUsize;
use vstd::prelude::*;

verus! {

// ---------------------------------------------------------------------------
// The watched issues
// ---------------------------------------------------------------------------

/// How an issue is recorded in the `issues-watch.json` artifact.
pub open spec fn watch_entry(e: ProcessWatchIssue, c: ProcessWatchIssueCandidate) -> bool {
    e.number == c.number && e.title == c.title && e.url == c.url
}

pub fn watch_issue_entries(issues: &Vec<ProcessWatchIssueCandidate>) -> (r: Vec<ProcessWatchIssue>)
    ensures
        r@.len() == issues@.len(),
        forall|i: int| 0 <= i < r@.len() ==> watch_entry(#[trigger] r@[i], issues@[i]),
{
    let mut r: Vec<ProcessWatchIssue> = Vec::new();
    let mut i: usize = 0;
    while i < issues.len()
        invariant
            i <= issues@.len(),
            r@.len() == i,
            forall|k: int| 0 <= k < i ==> watch_entry(#[trigger] r@[k], issues@[k]),
        decreases issues@.len() - i,
    {
        let c = &issues[i];
        r.push(ProcessWatchIssue { number: c.number, title: c.title.clone(), url: c.url.clone() });
        i = i + 1;
    }
    r
}

/// What `--act` did with one issue.
#[derive(Debug, Clone, PartialEq, Eq)]
pub struct ProcessIssuesWatchActIssueAction {
    pub issue_number: u64,
    pub issue_url: String,
    pub decision: IssueWatchDecision,
    pub planned_action: String,
    pub skipped_reasons: Vec<ProcessMutationSkipReason>,
    pub attempted: bool,
    pub success: bool,
    pub branch: Option<String>,
    pub commit_sha: Option<String>,
    pub commit_url: Option<String>,
    pub pr_url: Option<String>,
    pub pr_number: Option<u64>,
    pub update_comment_url: Option<String>,
    pub error: Option<String>,
}

/// The action as first recorded for `issue`: its decision, the planned
/// action (or the skip), nothing done.
pub open spec fn initial_action(
    a: ProcessIssuesWatchActIssueAction,
    issue: ProcessWatchIssueCandidate,
    skipped: Option<ProcessMutationSkipReason>,
    dry_run: bool,
) -> bool {
    &&& a.issue_number == issue.number
    &&& a.issue_url == issue.url
    &&& a.decision == issue_triage(issue.title@, issue.body@)
    &&& a.planned_action@ == issues_watch_planned_action(a.decision, skipped, dry_run)
    &&& a.skipped_reasons@ == (match skipped {
        Some(r) => seq![r],
        None => Seq::<ProcessMutationSkipReason>::empty(),
    })
    &&& !a.attempted
    &&& !a.success
    &&& a.branch is None && a.commit_sha is None && a.commit_url is None
    &&& a.pr_url is None && a.pr_number is None
    &&& a.update_comment_url is None && a.error is None
}

pub fn issue_action(
    issue: &ProcessWatchIssueCandidate,
    skipped: Option<ProcessMutationSkipReason>,
    dry_run: bool,
) -> (r: ProcessIssuesWatchActIssueAction)
    ensures
        initial_action(r, *issue, skipped, dry_run),
{
    let decision = classify_issue_watch_triage(issue);
    let mut skipped_reasons: Vec<ProcessMutationSkipReason> = Vec::new();
    if let Some(reason) = skipped {
        skipped_reasons.push(reason);
    }
    assert(skipped_reasons@ =~= (match skipped {
        Some(r) => seq![r],
        None => Seq::<ProcessMutationSkipReason>::empty(),
    }));
    ProcessIssuesWatchActIssueAction {
        issue_number: issue.number,
        issue_url: issue.url.clone(),
        decision,
        planned_action: format_issues_watch_planned_action(decision, skipped, dry_run),
        skipped_reasons,
        attempted: false,
        success: false,
        branch: None,
        commit_sha: None,
        commit_url: None,
        pr_url: None,
        pr_number: None,
        update_comment_url: None,
        error: None,
    }
}

/// The planned actions for the fetched `issues` under the act queue `plan`:
/// every issue the plan skips has its entry, with the plan's reason; in a
/// dry run every acted issue has its entry too, with nothing skipped; an
/// entry is only ever one of these, and the other acted issues wait for
/// their worker.
pub open spec fn planned_actions(
    issues: Seq<ProcessWatchIssueCandidate>,
    plan: ProcessIssuesWatchActQueuePlan,
    dry_run: bool,
    r: Seq<Option<ProcessIssuesWatchActIssueAction>>,
) -> bool {
    &&& r.len() == issues.len()
    &&& forall|i: int| 0 <= i < plan.skipped@.len() ==> r[(#[trigger] plan.skipped@[i]).issue_index as int] is Some
    &&& dry_run ==> forall|i: int| 0 <= i < plan.acted_indices@.len() ==> r[#[trigger] plan.acted_indices@[i] as int] is Some
    &&& forall|k: int|
        0 <= k < issues.len() ==> match #[trigger] r[k] {
            Some(a) => (exists|i: int|
                0 <= i < plan.skipped@.len() && plan.skipped@[i].issue_index == k
                    && initial_action(a, issues[k], Some(plan.skipped@[i].reason), dry_run))
                || (dry_run && exists|i: int|
                0 <= i < plan.acted_indices@.len() && plan.acted_indices@[i] == k
                    && initial_action(a, issues[k], None, true)),
            None => !dry_run || forall|i: int| 0 <= i < plan.acted_indices@.len() ==> plan.acted_indices@[i] != k,
        }
}

/// The actions known before any issue is acted on: the issues over the
/// act-items cap are skipped, and in a dry run every acted issue only gets
/// its planned action. The other acted issues wait for their worker.
pub fn planned_issue_actions(
    issues: &Vec<ProcessWatchIssueCandidate>,
    plan: &ProcessIssuesWatchActQueuePlan,
    dry_run: bool,
) -> (r: Vec<Option<ProcessIssuesWatchActIssueAction>>)
    requires
        forall|i: int| 0 <= i < plan.skipped@.len() ==> (#[trigger] plan.skipped@[i]).issue_index < issues@.len(),
        forall|i: int| 0 <= i < plan.acted_indices@.len() ==> #[trigger] plan.acted_indices@[i] < issues@.len(),
    ensures
        planned_actions(issues@, *plan, dry_run, r@),
{
    let mut r: Vec<Option<ProcessIssuesWatchActIssueAction>> = Vec::new();
    let mut i: usize = 0;
    while i < issues.len()
        invariant
            i <= issues@.len(),
            r@.len() == i,
            forall|k: int| 0 <= k < i ==> r@[k] is None,
        decreases issues@.len() - i,
    {
        r.push(None);
        i = i + 1;
    }
    let mut s: usize = 0;
    while s < plan.skipped.len()
        invariant
            s <= plan.skipped@.len(),
            r@.len() == issues@.len(),
            forall|i: int| 0 <= i < plan.skipped@.len() ==> (#[trigger] plan.skipped@[i]).issue_index < issues@.len(),
            forall|i: int| 0 <= i < s ==> r@[(#[trigger] plan.skipped@[i]).issue_index as int] is Some,
            forall|k: int|
                0 <= k < issues@.len() ==> match #[trigger] r@[k] {
                    Some(a) => exists|i: int|
                        0 <= i < s && plan.skipped@[i].issue_index == k
                            && initial_action(a, issues@[k], Some(plan.skipped@[i].reason), dry_run),
                    None => true,
                },
        decreases plan.skipped@.len() - s,
    {
        let entry = &plan.skipped[s];
        let k = entry.issue_index;
        let a = issue_action(&issues[k], Some(entry.reason), dry_run);
        r.set(k, Some(a));
        assert forall|k2: int| 0 <= k2 < issues@.len() implies match #[trigger] r@[k2] {
            Some(a) => exists|i: int|
                0 <= i < s + 1 && plan.skipped@[i].issue_index == k2
                    && initial_action(a, issues@[k2], Some(plan.skipped@[i].reason), dry_run),
            None => true,
        } by {
            if k2 == k {
                assert(plan.skipped@[s as int].issue_index == k2);
            }
        }
        s = s + 1;
    }
    if dry_run {
        let mut j: usize = 0;
        while j < plan.acted_indices.len()
            invariant
                dry_run,
                j <= plan.acted_indices@.len(),
                r@.len() == issues@.len(),
                forall|i: int| 0 <= i < plan.acted_indices@.len() ==> #[trigger] plan.acted_indices@[i] < issues@.len(),
                forall|i: int| 0 <= i < j ==> r@[#[trigger] plan.acted_indices@[i] as int] is Some,
                forall|i: int| 0 <= i < plan.skipped@.len() ==> (#[trigger] plan.skipped@[i]).issue_index < issues@.len(),
                forall|i: int| 0 <= i < plan.skipped@.len() ==> r@[(#[trigger] plan.skipped@[i]).issue_index as int] is Some,
                forall|k: int|
                    0 <= k < issues@.len() ==> match #[trigger] r@[k] {
                        Some(a) => (exists|i: int|
                            0 <= i < plan.skipped@.len() && plan.skipped@[i].issue_index == k
                                && initial_action(a, issues@[k], Some(plan.skipped@[i].reason), dry_run))
                            || (exists|i: int|
                            0 <= i < j && plan.acted_indices@[i] == k
                                && initial_action(a, issues@[k], None, true)),
                        None => true,
                    },
            decreases plan.acted_indices@.len() - j,
        {
            let k = plan.acted_indices[j];
            let a = issue_action(&issues[k], None, true);
            r.set(k, Some(a));
            assert forall|k2: int| 0 <= k2 < issues@.len() implies match #[trigger] r@[k2] {
                Some(a) => (exists|i: int|
                    0 <= i < plan.skipped@.len() && plan.skipped@[i].issue_index == k2
                        && initial_action(a, issues@[k2], Some(plan.skipped@[i].reason), dry_run))
                    || (exists|i: int|
                    0 <= i < j + 1 && plan.acted_indices@[i] == k2
                        && initial_action(a, issues@[k2], None, true)),
                None => true,
            } by {
                if k2 == k {
                    assert(plan.acted_indices@[j as int] == k2);
                }
            }
            j = j + 1;
        }
    }
    r
}

/// With the act queue of `build_process_issues_watch_act_queue_plan`, the
/// planned actions give every issue past the act-items cap an entry skipped
/// for that reason; in a dry run every acted issue also gets an entry, with
/// nothing skipped, and outside a dry run the acted issues are left to their
/// workers.
pub proof fn law_planned_actions_cover_issues(
    issues: Seq<ProcessWatchIssueCandidate>,
    max_act_items: Option<usize>,
    plan: ProcessIssuesWatchActQueuePlan,
    dry_run: bool,
    r: Seq<Option<ProcessIssuesWatchActIssueAction>>,
    k: int,
)
    requires
        plan.acted_indices@.len() == allowed_act_items(issues.len(), max_act_items),
        forall|i: int| 0 <= i < plan.acted_indices@.len() ==> plan.acted_indices@[i] == i,
        plan.skipped@.len() == issues.len() - allowed_act_items(issues.len(), max_act_items),
        forall|i: int|
            0 <= i < plan.skipped@.len() ==> (#[trigger] plan.skipped@[i]).issue_index
                == allowed_act_items(issues.len(), max_act_items) + i && plan.skipped@[i].reason
                == ProcessMutationSkipReason::MaxActItemsCapReached,
        planned_actions(issues, plan, dry_run, r),
        0 <= k < issues.len(),
    ensures
        k >= allowed_act_items(issues.len(), max_act_items) ==> (r[k] matches Some(a) && initial_action(
            a,
            issues[k],
            Some(ProcessMutationSkipReason::MaxActItemsCapReached),
            dry_run,
        )),
        k < allowed_act_items(issues.len(), max_act_items) && dry_run ==> (r[k] matches Some(a)
            && initial_action(a, issues[k], None, true)),
        k < allowed_act_items(issues.len(), max_act_items) && !dry_run ==> r[k] is None,
{
    let n = allowed_act_items(issues.len(), max_act_items);
    if k >= n {
        let s = k - n;
        assert(plan.skipped@[s].issue_index == k);
        assert(r[plan.skipped@[s].issue_index as int] is Some);
        assert forall|t: int| 0 <= t < plan.acted_indices@.len() implies plan.acted_indices@[t] != k by {}
        let a = r[k]->0;
        assert(exists|i: int|
            0 <= i < plan.skipped@.len() && plan.skipped@[i].issue_index == k
                && initial_action(a, issues[k], Some(plan.skipped@[i].reason), dry_run));
    } else {
        assert(plan.acted_indices@[k] == k);
        assert forall|t: int| 0 <= t < plan.skipped@.len() implies (#[trigger] plan.skipped@[t]).issue_index != k by {}
        if dry_run {
            assert(r[plan.acted_indices@[k] as int] is Some);
        }
    }
}

/// The entries that are there, in order.
pub open spec fn present<A>(s: Seq<Option<A>>) -> Seq<A>
    decreases s.len(),
{
    if s.len() == 0 {
        Seq::empty()
    } else {
        match s.last() {
            Some(a) => present(s.drop_last()).push(a),
            None => present(s.drop_last()),
        }
    }
}

proof fn lemma_present_all(s: Seq<Option<ProcessIssuesWatchActIssueAction>>)
    requires
        forall|k: int| 0 <= k < s.len() ==> #[trigger] s[k] is Some,
    ensures
        present(s).len() == s.len(),
        forall|k: int| 0 <= k < s.len() ==> s[k] == Some(#[trigger] present(s)[k]),
    decreases s.len(),
{
    if s.len() > 0 {
        let t = s.drop_last();
        assert forall|k: int| 0 <= k < t.len() implies #[trigger] t[k] is Some by {
            assert(t[k] == s[k]);
        }
        lemma_present_all(t);
        assert(s.last() is Some);
        assert forall|k: int| 0 <= k < s.len() implies s[k] == Some(#[trigger] present(s)[k]) by {
            if k < t.len() {
                assert(s[k] == t[k]);
            }
        }
    }
}

/// The actions of the artifact: the recorded entries in issue order. Once
/// every issue has its entry there is one action per issue, in the order of
/// the fetched issues.
pub fn collect_issue_actions(actions: Vec<Option<ProcessIssuesWatchActIssueAction>>) -> (r: Vec<
    ProcessIssuesWatchActIssueAction,
>)
    ensures
        r@ == present(actions@),
        (forall|k: int| 0 <= k < actions@.len() ==> #[trigger] actions@[k] is Some) ==> {
            &&& r@.len() == actions@.len()
            &&& forall|k: int| 0 <= k < actions@.len() ==> actions@[k] == Some(#[trigger] r@[k])
        },
{
    let ghost all = actions@;
    let mut r: Vec<ProcessIssuesWatchActIssueAction> = Vec::new();
    let mut rest = actions;
    let n = rest.len();
    let mut i: usize = 0;
    while i < n
        invariant
            n == all.len(),
            i <= n,
            rest@ == all.skip(i as int),
            r@ == present(all.take(i as int)),
        decreases n - i,
    {
        let next = rest.remove(0);
        assert(all.take(i + 1).drop_last() =~= all.take(i as int));
        assert(rest@ =~= all.skip(i + 1));
        match next {
            Some(a) => {
                r.push(a);
            },
            None => {},
        }
        i = i + 1;
    }
    assert(all.take(n as int) =~= all);
    proof {
        if forall|k: int| 0 <= k < all.len() ==> #[trigger] all[k] is Some {
            lemma_present_all(all);
        }
    }
    r
}

fn copy_labels(labels: &Vec<String>) -> (r: Vec<String>)
    ensures
        r@ == labels@,
{
    let mut r: Vec<String> = Vec::new();
    let mut i: usize = 0;
    while i < labels.len()
        invariant
            i <= labels@.len(),
            r@ == labels@.take(i as int),
        decreases labels@.len() - i,
    {
        r.push(labels[i].clone());
        assert(r@ =~= labels@.take(i + 1));
        i = i + 1;
    }
    assert(labels@.take(labels@.len() as int) =~= labels@);
    r
}

/// `c` is a copy of `issue`: the same number, texts and labels.
pub open spec fn same_candidate(c: ProcessWatchIssueCandidate, issue: ProcessWatchIssueCandidate) -> bool {
    &&& c.number == issue.number
    &&& c.title == issue.title
    &&& c.body == issue.body
    &&& c.url == issue.url
    &&& c.labels@ == issue.labels@
}

fn copy_candidate(issue: &ProcessWatchIssueCandidate) -> (r: ProcessWatchIssueCandidate)
    ensures
        same_candidate(r, *issue),
{
    ProcessWatchIssueCandidate {
        number: issue.number,
        title: issue.title.clone(),
        body: issue.body.clone(),
        url: issue.url.clone(),
        labels: copy_labels(&issue.labels),
    }
}

/// The issues that workers act on, each with its index among the fetched
/// issues: none in a dry run, which changes nothing; otherwise the plan's
/// acted issues, in queue order.
pub fn issues_watch_act_queue(
    issues: &Vec<ProcessWatchIssueCandidate>,
    plan: &ProcessIssuesWatchActQueuePlan,
    dry_run: bool,
) -> (r: Vec<(usize, ProcessWatchIssueCandidate)>)
    requires
        forall|i: int| 0 <= i < plan.acted_indices@.len() ==> #[trigger] plan.acted_indices@[i] < issues@.len(),
    ensures
        dry_run ==> r@.len() == 0,
        !dry_run ==> r@.len() == plan.acted_indices@.len(),
        !dry_run ==> forall|i: int|
            0 <= i < r@.len() ==> (#[trigger] r@[i]).0 == plan.acted_indices@[i] && same_candidate(
                r@[i].1,
                issues@[plan.acted_indices@[i] as int],
            ),
{
    let mut r: Vec<(usize, ProcessWatchIssueCandidate)> = Vec::new();
    if dry_run {
        return r;
    }
    let mut j: usize = 0;
    while j < plan.acted_indices.len()
        invariant
            j <= plan.acted_indices@.len(),
            forall|i: int| 0 <= i < plan.acted_indices@.len() ==> #[trigger] plan.acted_indices@[i] < issues@.len(),
            r@.len() == j,
            forall|i: int|
                0 <= i < j ==> (#[trigger] r@[i]).0 == plan.acted_indices@[i] && same_candidate(
                    r@[i].1,
                    issues@[plan.acted_indices@[i] as int],
                ),
        decreases plan.acted_indices@.len() - j,
    {
        let index = plan.acted_indices[j];
        r.push((index, copy_candidate(&issues[index])));
        j = j + 1;
    }
    r
}

/// The number of workers: `max_concurrency`, at most 16 and at most one
/// per issue, but at least one.
pub open spec fn workers(max_concurrency: usize, total: usize) -> usize {
    let a = if max_concurrency < 16 { max_concurrency } else { 16 };
    let b = if a < total { a } else { total };
    if b < 1 { 1 } else { b }
}

pub fn worker_count(max_concurrency: usize, total_to_act: usize) -> (r: usize)
    ensures
        r == workers(max_concurrency, total_to_act),
        1 <= r <= 16,
{
    let a = if max_concurrency < 16 { max_concurrency } else { 16 };
    let b = if a < total_to_act { a } else { total_to_act };
    if b < 1 { 1 } else { b }
}

pub open spec fn count_skipped(actions: Seq<ProcessIssuesWatchActIssueAction>) -> nat
    decreases actions.len(),
{
    if actions.len() == 0 {
        0
    } else {
        count_skipped(actions.drop_last()) + if actions.last().skipped_reasons@.len() > 0 { 1nat } else { 0nat }
    }
}

pub open spec fn count_success(actions: Seq<ProcessIssuesWatchActIssueAction>) -> nat
    decreases actions.len(),
{
    if actions.len() == 0 {
        0
    } else {
        count_success(actions.drop_last()) + if actions.last().success { 1nat } else { 0nat }
    }
}

pub open spec fn count_attempted(actions: Seq<ProcessIssuesWatchActIssueAction>) -> nat
    decreases actions.len(),
{
    if actions.len() == 0 {
        0
    } else {
        count_attempted(actions.drop_last()) + if actions.last().attempted { 1nat } else { 0nat }
    }
}

proof fn lemma_counts_bound(actions: Seq<ProcessIssuesWatchActIssueAction>)
    ensures
        count_skipped(actions) <= actions.len(),
        count_success(actions) <= actions.len(),
        count_attempted(actions) <= actions.len(),
    decreases actions.len(),
{
    if actions.len() > 0 {
        lemma_counts_bound(actions.drop_last());
    }
}

/// How many issues were skipped, succeeded and were attempted.
#[derive(Debug, Clone, Copy, PartialEq, Eq)]
pub struct IssuesWatchActCounts {
    pub skipped: usize,
    pub success: usize,
    pub attempted: usize,
}

pub fn issues_watch_act_counts(actions: &Vec<ProcessIssuesWatchActIssueAction>) -> (r: IssuesWatchActCounts)
    ensures
        r.skipped == count_skipped(actions@),
        r.success == count_success(actions@),
        r.attempted == count_attempted(actions@),
{
    let mut r = IssuesWatchActCounts { skipped: 0, success: 0, attempted: 0 };
    let mut i: usize = 0;
    while i < actions.len()
        invariant
            i <= actions@.len(),
            r.skipped == count_skipped(actions@.take(i as int)),
            r.success == count_success(actions@.take(i as int)),
            r.attempted == count_attempted(actions@.take(i as int)),
        decreases actions@.len() - i,
    {
        assert(actions@.take(i + 1).drop_last() =~= actions@.take(i as int));
        proof {
            lemma_counts_bound(actions@.take(i as int));
        }
        let a = &actions[i];
        if a.skipped_reasons.len() > 0 {
            r.skipped = r.skipped + 1;
        }
        if a.success {
            r.success = r.success + 1;
        }
        if a.attempted {
            r.attempted = r.attempted + 1;
        }
        i = i + 1;
    }
    assert(actions@.take(actions@.len() as int) =~= actions@);
    r
}

// ---------------------------------------------------------------------------
// Acting on one issue
// ---------------------------------------------------------------------------

/// What acting on an issue waits on.
#[derive(Debug, Clone, PartialEq, Eq)]
pub enum WatchedIssueStage {
    /// Nothing has happened yet.
    Start,
    /// The manual-follow-up comment of a `needs_manual` issue is being
    /// posted.
    AwaitingManualComment,
    /// The quick fix runs.
    AwaitingQuickFix,
    /// The follow-up pull request is being created.
    AwaitingFollowUpPr(QuickFixExecutionResult),
    /// The comment that reports the quick fix is being posted; `reason` is
    /// the failure it reports, when the fix failed.
    AwaitingResultComment { reason: Option<String> },
    /// Done; the outcome is in `action`.
    Done,
}

/// Acting on one watched issue.
#[derive(Debug, PartialEq, Eq)]
pub struct WatchedIssueAct {
    pub repo: String,
    pub issue: ProcessWatchIssueCandidate,
    pub confirm_label: Option<String>,
    pub max_mutations_per_run: Option<usize>,
    /// Why quick fixes cannot have worktrees, if they cannot.
    pub quick_fix_root_error: Option<String>,
    /// The commit quick-fix branches start at, or why it is unknown.
    pub base_sha: Result<String, String>,
    /// The branch follow-up pull requests target.
    pub base_branch: String,
    pub action: ProcessIssuesWatchActIssueAction,
    pub stage: WatchedIssueStage,
    /// The values the shared mutation counter held when this issue's
    /// mutations were scheduled, in order.
    pub counts_seen: Vec<usize>,
}

/// What the worker does next for the issue.
#[derive(Debug, Clone, PartialEq, Eq)]
pub enum WatchedIssueStep {
    /// Run the issue's quick fix on its own branch from `base_sha`.
    RunQuickFix { base_sha: String },
    /// Open a pull request from `head_branch` onto `base_branch`.
    CreateFollowUpPr { base_branch: String, head_branch: String, title: String, body: String },
    /// Comment on the issue.
    PostComment { body: String },
    /// Done; the outcome is in the act's `action`.
    Done,
}

/// The outcome of the last step.
#[derive(Debug, PartialEq, Eq)]
pub enum WatchedIssueEvent {
    /// Nothing to report: acting starts.
    Continue,
    QuickFixFinished(QuickFixExecutionResult),
    /// What `gh pr create` printed, or the error.
    FollowUpPrFinished(Result<String, String>),
    /// What `gh issue comment` printed, or the error.
    CommentPosted(Result<String, String>),
}

pub open spec fn manual_reason() -> Seq<char> {
    "Triaged as needs_manual for human follow-up (scope or risk is non-trivial)."@
}

pub open spec fn label_missing_message(label: Seq<char>) -> Seq<char> {
    "Skipped: issue does not include label `"@ + label + "`."@
}

pub open spec fn quick_fix_cap_message() -> Seq<char> {
    "Skipped quick-fix mutation due to max mutation cap."@
}

pub open spec fn comment_failed_message(reason: Seq<char>, err: Seq<char>) -> Seq<char> {
    reason + " Failed to post issue update comment: "@ + err
}

pub open spec fn success_comment_failed_message(err: Seq<char>) -> Seq<char> {
    "Quick fix completed, but failed to post issue update comment: "@ + err
}

pub open spec fn unknown_failure_reason() -> Seq<char> {
    "Quick-fix attempt failed for an unknown reason."@
}

pub open spec fn pr_failed_message(number: u64, err: Seq<char>) -> Seq<char> {
    "Issue quick-fix PR creation failed for issue #"@ + dec(number as nat) + ": "@ + err
}

/// Whether the issue lacks the confirmation label the run asks for.
pub open spec fn lacks_confirm_label(act: WatchedIssueAct) -> bool {
    match act.confirm_label {
        Some(l) => !has_label(act.issue.labels@, l@),
        None => false,
    }
}

/// Whether the step changes something outside the run.
pub open spec fn mutating_step(s: WatchedIssueStep) -> bool {
    s is RunQuickFix || s is CreateFollowUpPr || s is PostComment
}

/// How many of the counter values in `seen` had reached the cap.
pub open spec fn counts_at_cap(seen: Seq<usize>, cap: Option<usize>) -> nat
    decreases seen.len(),
{
    if seen.len() == 0 {
        0
    } else {
        counts_at_cap(seen.drop_last(), cap) + if cap_reached(seen.last(), cap) {
            1nat
        } else {
            0nat
        }
    }
}

/// How many refusals by the mutation cap `reasons` records.
pub open spec fn cap_refusals(reasons: Seq<ProcessMutationSkipReason>) -> nat
    decreases reasons.len(),
{
    if reasons.len() == 0 {
        0
    } else {
        cap_refusals(reasons.drop_last()) + if reasons.last()
            == ProcessMutationSkipReason::MaxMutationsPerRunReached {
            1nat
        } else {
            0nat
        }
    }
}

/// From `before` to `after` the counter values seen only grow, and each
/// refusal by the mutation cap recorded in between matches a newly seen
/// value that had reached the cap.
pub open spec fn schedulings_match(before: WatchedIssueAct, after: WatchedIssueAct) -> bool {
    &&& before.counts_seen@.len() <= after.counts_seen@.len()
    &&& after.counts_seen@.subrange(0, before.counts_seen@.len() as int) == before.counts_seen@
    &&& cap_refusals(after.action.skipped_reasons@) + counts_at_cap(
        before.counts_seen@,
        before.max_mutations_per_run,
    ) == cap_refusals(before.action.skipped_reasons@) + counts_at_cap(
        after.counts_seen@,
        before.max_mutations_per_run,
    )
}

/// A step that changes something was scheduled last, with the shared
/// counter below the cap.
pub open spec fn scheduled_below_cap(before: WatchedIssueAct, after: WatchedIssueAct, r: WatchedIssueStep) -> bool {
    mutating_step(r) ==> before.counts_seen@.len() < after.counts_seen@.len() && !cap_reached(
        after.counts_seen@.last(),
        after.max_mutations_per_run,
    )
}

proof fn lemma_seen_push(seen: Seq<usize>, p: usize, cap: Option<usize>)
    ensures
        counts_at_cap(seen.push(p), cap) == counts_at_cap(seen, cap) + if cap_reached(p, cap) {
            1nat
        } else {
            0nat
        },
{
    assert(seen.push(p).drop_last() =~= seen);
}

proof fn lemma_refusal_push(reasons: Seq<ProcessMutationSkipReason>, x: ProcessMutationSkipReason)
    ensures
        cap_refusals(reasons.push(x)) == cap_refusals(reasons) + if x
            == ProcessMutationSkipReason::MaxMutationsPerRunReached {
            1nat
        } else {
            0nat
        },
{
    assert(reasons.push(x).drop_last() =~= reasons);
}

proof fn lemma_match_trans(a: WatchedIssueAct, b: WatchedIssueAct, c: WatchedIssueAct)
    requires
        schedulings_match(a, b),
        schedulings_match(b, c),
        a.max_mutations_per_run == b.max_mutations_per_run,
    ensures
        schedulings_match(a, c),
{
    assert(c.counts_seen@.subrange(0, a.counts_seen@.len() as int) =~= c.counts_seen@.subrange(
        0,
        b.counts_seen@.len() as int,
    ).subrange(0, a.counts_seen@.len() as int));
}

/// Starts acting on an issue.
pub fn start_watched_issue_act(
    repo: String,
    issue: ProcessWatchIssueCandidate,
    confirm_label: Option<String>,
    max_mutations_per_run: Option<usize>,
    quick_fix_root_error: Option<String>,
    base_sha: Result<String, String>,
    base_branch: String,
) -> (r: WatchedIssueAct)
    ensures
        r.repo == repo && r.issue == issue && r.confirm_label == confirm_label,
        r.max_mutations_per_run == max_mutations_per_run,
        r.quick_fix_root_error == quick_fix_root_error,
        r.base_sha == base_sha && r.base_branch == base_branch,
        initial_action(r.action, issue, None, false),
        r.stage == WatchedIssueStage::Start,
        r.counts_seen@.len() == 0,
{
    let action = issue_action(&issue, None, false);
    WatchedIssueAct {
        repo,
        issue,
        confirm_label,
        max_mutations_per_run,
        quick_fix_root_error,
        base_sha,
        base_branch,
        action,
        stage: WatchedIssueStage::Start,
        counts_seen: Vec::new(),
    }
}

/// Whether `event` answers what the act waits on.
pub open spec fn watched_event_fits(stage: WatchedIssueStage, event: WatchedIssueEvent) -> bool {
    match stage {
        WatchedIssueStage::Start => event is Continue,
        WatchedIssueStage::AwaitingManualComment => event is CommentPosted,
        WatchedIssueStage::AwaitingQuickFix => event is QuickFixFinished,
        WatchedIssueStage::AwaitingFollowUpPr(_) => event is FollowUpPrFinished,
        WatchedIssueStage::AwaitingResultComment { .. } => event is CommentPosted,
        WatchedIssueStage::Done => false,
    }
}

/// What stays fixed while acting on an issue.
pub open spec fn same_act(a: WatchedIssueAct, b: WatchedIssueAct) -> bool {
    &&& a.repo == b.repo
    &&& a.issue == b.issue
    &&& a.confirm_label == b.confirm_label
    &&& a.max_mutations_per_run == b.max_mutations_per_run
    &&& a.quick_fix_root_error == b.quick_fix_root_error
    &&& a.base_sha == b.base_sha
    &&& a.base_branch == b.base_branch
    &&& b.action.issue_number == a.action.issue_number
    &&& b.action.issue_url == a.action.issue_url
    &&& b.action.decision == a.action.decision
}

fn skip_for_cap(action: &mut ProcessIssuesWatchActIssueAction)
    ensures
        final(action).skipped_reasons@ == old(action).skipped_reasons@.push(
            ProcessMutationSkipReason::MaxMutationsPerRunReached,
        ),
        final(action).planned_action@ == issues_watch_planned_action(
            old(action).decision,
            Some(ProcessMutationSkipReason::MaxMutationsPerRunReached),
            false,
        ),
        *final(action) == (ProcessIssuesWatchActIssueAction {
            skipped_reasons: final(action).skipped_reasons,
            planned_action: final(action).planned_action,
            ..*old(action)
        }),
{
    action.skipped_reasons.push(ProcessMutationSkipReason::MaxMutationsPerRunReached);
    action.planned_action = format_issues_watch_planned_action(
        action.decision,
        Some(ProcessMutationSkipReason::MaxMutationsPerRunReached),
        false,
    );
}

fn cat(a: &str, b: &str) -> (r: String)
    ensures
        r@ == a@ + b@,
{
    let mut r = a.to_owned();
    r.append(b);
    r
}

/// `after` is `before` with the quick-fix outcome `e` recorded.
pub open spec fn recorded_quick_fix(before: ProcessIssuesWatchActIssueAction, after: ProcessIssuesWatchActIssueAction, e: QuickFixExecutionResult) -> bool {
    after == (ProcessIssuesWatchActIssueAction {
        attempted: e.attempted,
        success: e.success,
        branch: e.branch_name,
        commit_sha: e.commit_sha,
        commit_url: e.commit_url,
        pr_url: e.follow_up_pr_url,
        pr_number: e.follow_up_pr_number,
        error: e.error,
        ..before
    })
}

/// `after` is `before` with a cap skip recorded.
pub open spec fn cap_skip_recorded(before: ProcessIssuesWatchActIssueAction, after: ProcessIssuesWatchActIssueAction) -> bool {
    &&& after.skipped_reasons@ == before.skipped_reasons@.push(ProcessMutationSkipReason::MaxMutationsPerRunReached)
    &&& after == (ProcessIssuesWatchActIssueAction { skipped_reasons: after.skipped_reasons, ..before })
}

/// The reason a failed quick fix reports.
pub open spec fn failure_reason(a: ProcessIssuesWatchActIssueAction) -> Seq<char> {
    match a.error {
        Some(e) => e@,
        None => unknown_failure_reason(),
    }
}

/// After the quick fix `e` is over, its outcome is on the action and a
/// comment reports it, unless the cap skips the comment.
pub open spec fn reported(act: WatchedIssueAct, e: QuickFixExecutionResult, after: WatchedIssueAct, r: WatchedIssueStep) -> bool {
    reported_with(act.action, act.max_mutations_per_run, e, after, r)
}

/// `reported`, for the action `action` under the cap `cap`.
pub open spec fn reported_with(
    action: ProcessIssuesWatchActIssueAction,
    cap: Option<usize>,
    e: QuickFixExecutionResult,
    after: WatchedIssueAct,
    r: WatchedIssueStep,
) -> bool {
    exists|mid: ProcessIssuesWatchActIssueAction|
        #![trigger recorded_quick_fix(action, mid, e)]
        recorded_quick_fix(action, mid, e) && {
            ||| {
                &&& r matches WatchedIssueStep::PostComment { body } && body@ == (if e.success {
                    issue_watch_success_comment(
                        opt_str_view(e.summary),
                        opt_str_view(e.follow_up_pr_url),
                        e.follow_up_pr_number,
                        opt_str_view(e.commit_url),
                    )
                } else {
                    manual_follow_up_comment(failure_reason(mid))
                })
                &&& after.action == mid
                &&& after.stage matches WatchedIssueStage::AwaitingResultComment { reason } && (if e.success {
                    reason is None
                } else {
                    opt_str_view(reason) == Some(failure_reason(mid))
                })
            }
            ||| {
                &&& cap is Some
                &&& r is Done
                &&& after.stage == WatchedIssueStage::Done
                &&& cap_skip_recorded(mid, after.action)
            }
        }
}

fn report_quick_fix(act: &mut WatchedIssueAct, execution: QuickFixExecutionResult, counter: &AtomicUsize) -> (r: WatchedIssueStep)
    ensures
        same_act(*old(act), *final(act)),
        reported(*old(act), execution, *final(act), r),
        schedulings_match(*old(act), *final(act)),
        scheduled_below_cap(*old(act), *final(act), r),
        final(act).counts_seen@.len() == old(act).counts_seen@.len() + 1,
{
    let ghost before = act.action;
    act.action.attempted = execution.attempted;
    act.action.success = execution.success;
    act.action.branch = clone_opt(&execution.branch_name);
    act.action.commit_sha = clone_opt(&execution.commit_sha);
    act.action.commit_url = clone_opt(&execution.commit_url);
    act.action.pr_url = clone_opt(&execution.follow_up_pr_url);
    act.action.pr_number = execution.follow_up_pr_number;
    act.action.error = clone_opt(&execution.error);
    let ghost mid = act.action;
    assert(recorded_quick_fix(before, mid, execution));
    let (body, reason) = if execution.success {
        let summary = match &execution.summary {
            Some(s) => Some(s.as_str()),
            None => None,
        };
        let pr_url = match &execution.follow_up_pr_url {
            Some(s) => Some(s.as_str()),
            None => None,
        };
        let commit_url = match &execution.commit_url {
            Some(s) => Some(s.as_str()),
            None => None,
        };
        (format_issue_watch_success_comment(summary, pr_url, execution.follow_up_pr_number, commit_url), None)
    } else {
        let reason = match &act.action.error {
            Some(e) => e.clone(),
            None => String::from_str("Quick-fix attempt failed for an unknown reason."),
        };
        (format_issue_watch_manual_follow_up_comment(reason.as_str()), Some(reason))
    };
    match fetch_update_mutation_count(counter, act.max_mutations_per_run) {
        Err(seen) => {
            proof {
                lemma_seen_push(act.counts_seen@, seen, act.max_mutations_per_run);
                lemma_refusal_push(act.action.skipped_reasons@, ProcessMutationSkipReason::MaxMutationsPerRunReached);
            }
            let ghost seen0 = act.counts_seen@;
            act.counts_seen.push(seen);
            assert(act.counts_seen@.subrange(0, seen0.len() as int) =~= seen0);
            let skip = ProcessMutationSkipReason::MaxMutationsPerRunReached;
            act.action.skipped_reasons.push(skip);
            act.stage = WatchedIssueStage::Done;
            WatchedIssueStep::Done
        },
        Ok(seen) => {
            proof {
                lemma_seen_push(act.counts_seen@, seen, act.max_mutations_per_run);
            }
            let ghost seen0 = act.counts_seen@;
            act.counts_seen.push(seen);
            assert(act.counts_seen@.subrange(0, seen0.len() as int) =~= seen0);
            act.stage = WatchedIssueStage::AwaitingResultComment { reason };
            WatchedIssueStep::PostComment { body }
        },
    }
}

/// The quick fix ran: a successful fix gets its follow-up pull request,
/// within the cap; its outcome is reported either way.
pub open spec fn after_fix(act: WatchedIssueAct, e: QuickFixExecutionResult, after: WatchedIssueAct, r: WatchedIssueStep) -> bool {
    if !e.success {
        reported(act, e, after, r)
    } else {
        ||| {
            &&& act.max_mutations_per_run is Some
            &&& exists|e2: QuickFixExecutionResult, a2: ProcessIssuesWatchActIssueAction|
                #![trigger cap_skip_recorded(act.action, a2), reported_with(a2, act.max_mutations_per_run, e2, after, r)]
                e2 == (QuickFixExecutionResult { pr_error: e2.pr_error, ..e })
                    && opt_str_view(e2.pr_error) == Some(crate::pr_comments::pr_cap_message())
                    && cap_skip_recorded(act.action, a2)
                    && reported_with(a2, act.max_mutations_per_run, e2, after, r)
        }
        ||| {
            &&& e.branch_name matches Some(head)
            &&& r matches WatchedIssueStep::CreateFollowUpPr { base_branch, head_branch, title, body }
                && base_branch == act.base_branch && head_branch == head
                && title@ == commit_message_for_issue(act.issue.number)
                && body@ == issue_watch_follow_up_pr_body(
                    act.repo@,
                    act.issue.number,
                    act.issue.url@,
                    act.issue.title@,
                    opt_str_view(e.commit_url),
                )
            &&& after.stage == WatchedIssueStage::AwaitingFollowUpPr(e)
            &&& after.action == act.action
        }
        ||| {
            &&& e.branch_name is None
            &&& exists|e2: QuickFixExecutionResult|
                #![trigger reported(act, e2, after, r)]
                e2 == (QuickFixExecutionResult { success: false, pr_error: e2.pr_error, error: e2.pr_error, ..e })
                    && opt_str_view(e2.pr_error) == Some(crate::pr_comments::missing_branch_message())
                    && reported(act, e2, after, r)
        }
    }
}

fn after_quick_fix_ran(act: &mut WatchedIssueAct, execution: QuickFixExecutionResult, counter: &AtomicUsize) -> (r: WatchedIssueStep)
    ensures
        same_act(*old(act), *final(act)),
        after_fix(*old(act), execution, *final(act), r),
        schedulings_match(*old(act), *final(act)),
        scheduled_below_cap(*old(act), *final(act), r),
{
    if !execution.success {
        return report_quick_fix(act, execution, counter);
    }
    let ghost act0 = *act;
    match fetch_update_mutation_count(counter, act.max_mutations_per_run) {
        Err(seen) => {
            proof {
                lemma_seen_push(act.counts_seen@, seen, act.max_mutations_per_run);
                lemma_refusal_push(act.action.skipped_reasons@, ProcessMutationSkipReason::MaxMutationsPerRunReached);
            }
            act.counts_seen.push(seen);
            assert(act.counts_seen@.subrange(0, act0.counts_seen@.len() as int) =~= act0.counts_seen@);
            let skip = ProcessMutationSkipReason::MaxMutationsPerRunReached;
            act.action.skipped_reasons.push(skip);
            let ghost a2 = act.action;
            let mut e2 = execution;
            e2.pr_error = Some(String::from_str("Skipped follow-up PR creation: max mutations-per-run cap reached."));
            let ghost act1 = *act;
            let ghost e2g = e2;
            assert(schedulings_match(act0, act1));
            let r = report_quick_fix(act, e2, counter);
            proof {
                lemma_match_trans(act0, act1, *act);
            }
            assert(cap_skip_recorded(act0.action, a2));
            assert(reported_with(a2, act0.max_mutations_per_run, e2g, *act, r));
            r
        },
        Ok(seen) => {
            proof {
                lemma_seen_push(act.counts_seen@, seen, act.max_mutations_per_run);
            }
            act.counts_seen.push(seen);
            assert(act.counts_seen@.subrange(0, act0.counts_seen@.len() as int) =~= act0.counts_seen@);
            let ghost act1 = *act;
            assert(schedulings_match(act0, act1));
            match &execution.branch_name {
                Some(head) => {
                    let head_branch = head.clone();
                    let title = issue_watch_quick_fix_commit_message(act.issue.number);
                    let commit_url = match &execution.commit_url {
                        Some(u) => Some(u.as_str()),
                        None => None,
                    };
                    let body = format_issue_watch_follow_up_pr_body(act.repo.as_str(), &act.issue, commit_url);
                    let base_branch = act.base_branch.clone();
                    act.stage = WatchedIssueStage::AwaitingFollowUpPr(execution);
                    WatchedIssueStep::CreateFollowUpPr { base_branch, head_branch, title, body }
                },
                None => {
                    let mut e2 = execution;
                    let m = String::from_str("Unable to create follow-up PR: quick-fix branch name is missing.");
                    e2.success = false;
                    e2.pr_error = Some(m.clone());
                    e2.error = Some(m);
                    let ghost e2g = e2;
                    let r = report_quick_fix(act, e2, counter);
                    proof {
                        lemma_match_trans(act0, act1, *act);
                    }
                    assert(reported(act0, e2g, *act, r));
                    r
                },
            }
        },
    }
}

/// `e2` is `e` with the outcome of its follow-up pull request.
pub open spec fn with_issue_pr(e: QuickFixExecutionResult, e2: QuickFixExecutionResult, number: u64, res: Result<String, String>) -> bool {
    let failure = match res {
        Ok(text) => match pr_create_url(text@) {
            Some(_) => None,
            None => Some(crate::gh_requests::missing_pr_url_message(text@)),
        },
        Err(m) => Some(m@),
    };
    match failure {
        None => {
            &&& res matches Ok(text) && opt_str_view(e2.follow_up_pr_url) == pr_create_url(text@)
                && e2.follow_up_pr_number == pr_create_number(text@)
            &&& e2 == (QuickFixExecutionResult {
                follow_up_pr_url: e2.follow_up_pr_url,
                follow_up_pr_number: e2.follow_up_pr_number,
                ..e
            })
        },
        Some(f) => {
            &&& opt_str_view(e2.pr_error) == Some(f)
            &&& opt_str_view(e2.error) == Some(pr_failed_message(number, f))
            &&& e2 == (QuickFixExecutionResult { success: false, pr_error: e2.pr_error, error: e2.error, ..e })
        },
    }
}

fn record_issue_pr(execution: &mut QuickFixExecutionResult, number: u64, res: Result<String, String>)
    ensures
        with_issue_pr(*old(execution), *final(execution), number, res),
{
    let failure = match res {
        Ok(text) => match follow_up_pr_created(text.as_str()) {
            Ok((url, n)) => {
                execution.follow_up_pr_url = Some(url);
                execution.follow_up_pr_number = n;
                None
            },
            Err(e) => Some(e),
        },
        Err(e) => Some(e),
    };
    if let Some(e) = failure {
        let mut m = String::from_str("Issue quick-fix PR creation failed for issue #");
        crate::text::push_decimal(&mut m, number);
        m.append(": ");
        m.append(e.as_str());
        execution.success = false;
        execution.pr_error = Some(e);
        execution.error = Some(m);
    }
}

/// `after` is `before` with what posting a comment gave: the comment's URL,
/// or `error` set by `failed`.
pub open spec fn comment_recorded(
    before: ProcessIssuesWatchActIssueAction,
    after: ProcessIssuesWatchActIssueAction,
    res: Result<String, String>,
    on_success: Option<Seq<char>>,
    failed: spec_fn(Seq<char>) -> Seq<char>,
) -> bool {
    match res {
        Ok(text) => {
            &&& opt_str_view(after.update_comment_url) == issue_comment_url(text@)
            &&& match on_success {
                Some(m) => opt_str_view(after.error) == Some(m),
                None => after.error == before.error,
            }
            &&& after == (ProcessIssuesWatchActIssueAction {
                update_comment_url: after.update_comment_url,
                error: after.error,
                ..before
            })
        },
        Err(e) => {
            &&& opt_str_view(after.error) == Some(failed(e@))
            &&& after == (ProcessIssuesWatchActIssueAction { error: after.error, ..before })
        },
    }
}

/// The transition of an issue's act on `event`.
pub open spec fn watched_transition(act: WatchedIssueAct, event: WatchedIssueEvent, after: WatchedIssueAct, r: WatchedIssueStep) -> bool {
    match act.stage {
        WatchedIssueStage::Start => if lacks_confirm_label(act) {
            &&& r is Done
            &&& after.stage == WatchedIssueStage::Done
            &&& after.action.skipped_reasons@ == act.action.skipped_reasons@.push(ProcessMutationSkipReason::ConfirmLabelMissing)
            &&& after.action.planned_action@ == issues_watch_planned_action(
                act.action.decision,
                Some(ProcessMutationSkipReason::ConfirmLabelMissing),
                false,
            )
            &&& act.confirm_label matches Some(l) && opt_str_view(after.action.error) == Some(label_missing_message(l@))
            &&& after.action == (ProcessIssuesWatchActIssueAction {
                skipped_reasons: after.action.skipped_reasons,
                planned_action: after.action.planned_action,
                error: after.action.error,
                ..act.action
            })
        } else if act.action.decision == IssueWatchDecision::NeedsManual {
            ||| {
                &&& r matches WatchedIssueStep::PostComment { body } && body@ == manual_follow_up_comment(manual_reason())
                &&& after.stage == WatchedIssueStage::AwaitingManualComment
                &&& after.action == act.action
            }
            ||| {
                &&& act.max_mutations_per_run is Some
                &&& r is Done
                &&& after.stage == WatchedIssueStage::Done
                &&& after.action.skipped_reasons@ == act.action.skipped_reasons@.push(ProcessMutationSkipReason::MaxMutationsPerRunReached)
                &&& after.action.planned_action@ == issues_watch_planned_action(
                    act.action.decision,
                    Some(ProcessMutationSkipReason::MaxMutationsPerRunReached),
                    false,
                )
                &&& opt_str_view(after.action.error) == Some(manual_reason())
                &&& after.action == (ProcessIssuesWatchActIssueAction {
                    skipped_reasons: after.action.skipped_reasons,
                    planned_action: after.action.planned_action,
                    error: after.action.error,
                    ..act.action
                })
            }
        } else {
            ||| {
                &&& act.max_mutations_per_run is Some
                &&& r is Done
                &&& after.stage == WatchedIssueStage::Done
                &&& after.action.skipped_reasons@ == act.action.skipped_reasons@.push(ProcessMutationSkipReason::MaxMutationsPerRunReached)
                &&& after.action.planned_action@ == issues_watch_planned_action(
                    act.action.decision,
                    Some(ProcessMutationSkipReason::MaxMutationsPerRunReached),
                    false,
                )
                &&& opt_str_view(after.action.error) == Some(quick_fix_cap_message())
                &&& after.action == (ProcessIssuesWatchActIssueAction {
                    skipped_reasons: after.action.skipped_reasons,
                    planned_action: after.action.planned_action,
                    error: after.action.error,
                    ..act.action
                })
            }
            ||| match act.quick_fix_root_error {
                Some(err) => exists|e: QuickFixExecutionResult|
                    #![trigger after_fix(act, e, after, r)]
                    crate::quick_fix_run::failed_without_output(e, false, err@) && after_fix(act, e, after, r),
                None => match act.base_sha {
                    Ok(sha) => {
                        &&& r == (WatchedIssueStep::RunQuickFix { base_sha: sha })
                        &&& after.stage == WatchedIssueStage::AwaitingQuickFix
                        &&& after.action == act.action
                    },
                    Err(err) => exists|e: QuickFixExecutionResult|
                        #![trigger after_fix(act, e, after, r)]
                        crate::quick_fix_run::failed_without_output(
                            e,
                            false,
                            crate::pr_comments::base_sha_message(err@),
                        ) && after_fix(act, e, after, r),
                },
            }
        },
        WatchedIssueStage::AwaitingManualComment => match event {
            WatchedIssueEvent::CommentPosted(res) => {
                &&& r is Done
                &&& after.stage == WatchedIssueStage::Done
                &&& comment_recorded(act.action, after.action, res, Some(manual_reason()), |e: Seq<char>| comment_failed_message(manual_reason(), e))
            },
            _ => true,
        },
        WatchedIssueStage::AwaitingQuickFix => match event {
            WatchedIssueEvent::QuickFixFinished(e) => after_fix(act, e, after, r),
            _ => true,
        },
        WatchedIssueStage::AwaitingFollowUpPr(e) => match event {
            WatchedIssueEvent::FollowUpPrFinished(res) => exists|e2: QuickFixExecutionResult|
                #![trigger reported(act, e2, after, r)]
                with_issue_pr(e, e2, act.issue.number, res) && reported(act, e2, after, r),
            _ => true,
        },
        WatchedIssueStage::AwaitingResultComment { reason } => match event {
            WatchedIssueEvent::CommentPosted(res) => {
                &&& r is Done
                &&& after.stage == WatchedIssueStage::Done
                &&& match reason {
                    None => comment_recorded(act.action, after.action, res, None, |e: Seq<char>| success_comment_failed_message(e)),
                    Some(m) => comment_recorded(act.action, after.action, res, None, |e: Seq<char>| comment_failed_message(m@, e)),
                }
            },
            _ => true,
        },
        WatchedIssueStage::Done => true,
    }
}

fn record_comment(action: &mut ProcessIssuesWatchActIssueAction, res: Result<String, String>, on_success: Option<&str>, prefix: &str, suffix_sep: bool) -> (r: ())
    ensures
        match res {
            Ok(text) => {
                &&& opt_str_view(final(action).update_comment_url) == issue_comment_url(text@)
                &&& match on_success {
                    Some(m) => opt_str_view(final(action).error) == Some(m@),
                    None => final(action).error == old(action).error,
                }
                &&& *final(action) == (ProcessIssuesWatchActIssueAction {
                    update_comment_url: final(action).update_comment_url,
                    error: final(action).error,
                    ..*old(action)
                })
            },
            Err(e) => {
                &&& opt_str_view(final(action).error) == Some(
                    if suffix_sep {
                        prefix@ + " Failed to post issue update comment: "@ + e@
                    } else {
                        prefix@ + e@
                    },
                )
                &&& *final(action) == (ProcessIssuesWatchActIssueAction { error: final(action).error, ..*old(action) })
            },
        },
{
    match res {
        Ok(text) => {
            action.update_comment_url = parse_gh_issue_comment_output(text.as_str()).url;
            if let Some(m) = on_success {
                action.error = Some(m.to_owned());
            }
        },
        Err(e) => {
            let mut m = prefix.to_owned();
            if suffix_sep {
                m.append(" Failed to post issue update comment: ");
            }
            m.append(e.as_str());
            action.error = Some(m);
        },
    }
}

fn start_step(act: &mut WatchedIssueAct, counter: &AtomicUsize) -> (r: WatchedIssueStep)
    requires
        old(act).stage == WatchedIssueStage::Done,
    ensures
        same_act(*old(act), *final(act)),
        watched_transition(WatchedIssueAct { stage: WatchedIssueStage::Start, ..*old(act) }, WatchedIssueEvent::Continue, *final(act), r),
        lacks_confirm_label(*old(act)) ==> !mutating_step(r),
        r is Done <==> final(act).stage == WatchedIssueStage::Done,
        schedulings_match(*old(act), *final(act)),
        scheduled_below_cap(*old(act), *final(act), r),
{
    let ghost act_in = WatchedIssueAct { stage: WatchedIssueStage::Start, ..*act };
    let ghost act0 = *act;
    let event = WatchedIssueEvent::Continue;
    let lacks = match &act.confirm_label {
        Some(label) => !issue_has_confirm_label(&act.issue, label.as_str()),
        None => false,
    };
    if lacks {
        let label = match &act.confirm_label {
            Some(l) => l.clone(),
            None => String::new(),
        };
        act.action.planned_action = format_issues_watch_planned_action(
            act.action.decision,
            Some(ProcessMutationSkipReason::ConfirmLabelMissing),
            false,
        );
        proof {
            lemma_refusal_push(act.action.skipped_reasons@, ProcessMutationSkipReason::ConfirmLabelMissing);
        }
        act.action.skipped_reasons.push(ProcessMutationSkipReason::ConfirmLabelMissing);
        assert(act.counts_seen@.subrange(0, act0.counts_seen@.len() as int) =~= act0.counts_seen@);
        let mut m = cat("Skipped: issue does not include label `", label.as_str());
        m.append("`.");
        act.action.error = Some(m);
        assert(watched_transition(act_in, event, *act, WatchedIssueStep::Done));
        return WatchedIssueStep::Done;
    }
    let needs_manual = match act.action.decision {
        IssueWatchDecision::NeedsManual => true,
        IssueWatchDecision::QuickFix => false,
    };
    if needs_manual {
        match fetch_update_mutation_count(counter, act.max_mutations_per_run) {
            Err(seen) => {
                proof {
                    lemma_seen_push(act.counts_seen@, seen, act.max_mutations_per_run);
                    lemma_refusal_push(act.action.skipped_reasons@, ProcessMutationSkipReason::MaxMutationsPerRunReached);
                }
                act.counts_seen.push(seen);
                assert(act.counts_seen@.subrange(0, act0.counts_seen@.len() as int) =~= act0.counts_seen@);
                let skip = ProcessMutationSkipReason::MaxMutationsPerRunReached;
                act.action.skipped_reasons.push(skip);
                act.action.planned_action = format_issues_watch_planned_action(
                    act.action.decision,
                    Some(skip),
                    false,
                );
                act.action.error = Some(String::from_str(
                    "Triaged as needs_manual for human follow-up (scope or risk is non-trivial).",
                ));
                assert(!lacks_confirm_label(act_in));
                assert(watched_transition(act_in, event, *act, WatchedIssueStep::Done));
                WatchedIssueStep::Done
            },
            Ok(seen) => {
                proof {
                    lemma_seen_push(act.counts_seen@, seen, act.max_mutations_per_run);
                }
                act.counts_seen.push(seen);
                assert(act.counts_seen@.subrange(0, act0.counts_seen@.len() as int) =~= act0.counts_seen@);
                let ghost act1 = *act;
                assert(schedulings_match(act0, act1));
                let body = format_issue_watch_manual_follow_up_comment(
                    "Triaged as needs_manual for human follow-up (scope or risk is non-trivial).",
                );
                act.stage = WatchedIssueStage::AwaitingManualComment;
                assert(watched_transition(act_in, event, *act, WatchedIssueStep::PostComment { body }));
                WatchedIssueStep::PostComment { body }
            },
        }
    } else {
        match fetch_update_mutation_count(counter, act.max_mutations_per_run) {
            Err(seen) => {
                proof {
                    lemma_seen_push(act.counts_seen@, seen, act.max_mutations_per_run);
                    lemma_refusal_push(act.action.skipped_reasons@, ProcessMutationSkipReason::MaxMutationsPerRunReached);
                }
                act.counts_seen.push(seen);
                assert(act.counts_seen@.subrange(0, act0.counts_seen@.len() as int) =~= act0.counts_seen@);
                let skip = ProcessMutationSkipReason::MaxMutationsPerRunReached;
                act.action.skipped_reasons.push(skip);
                act.action.planned_action = format_issues_watch_planned_action(
                    act.action.decision,
                    Some(skip),
                    false,
                );
                act.action.error = Some(String::from_str("Skipped quick-fix mutation due to max mutation cap."));
                assert(watched_transition(act_in, event, *act, WatchedIssueStep::Done));
                WatchedIssueStep::Done
            },
            Ok(seen) => {
                proof {
                    lemma_seen_push(act.counts_seen@, seen, act.max_mutations_per_run);
                }
                act.counts_seen.push(seen);
                assert(act.counts_seen@.subrange(0, act0.counts_seen@.len() as int) =~= act0.counts_seen@);
                let ghost act1 = *act;
                assert(schedulings_match(act0, act1));
                let root_error = clone_opt(&act.quick_fix_root_error);
                match root_error {
                    Some(e) => {
                        let execution = failed_execution(false, e);
                        let ghost eg = execution;
                        let r = after_quick_fix_ran(act, execution, counter);
                        proof {
                            lemma_match_trans(act0, act1, *act);
                        }
                        assert(after_fix(act_in, eg, *act, r));
                        assert(watched_transition(act_in, event, *act, r));
                        r
                    },
                    None => match &act.base_sha {
                        Ok(sha) => {
                            let base_sha = sha.clone();
                            act.stage = WatchedIssueStage::AwaitingQuickFix;
                            assert(watched_transition(act_in, event, *act, WatchedIssueStep::RunQuickFix { base_sha }));
                            WatchedIssueStep::RunQuickFix { base_sha }
                        },
                        Err(err) => {
                            let mut m = String::from_str("Unable to read current git HEAD for quick-fix branching: ");
                            m.append(err.as_str());
                            let execution = failed_execution(false, m);
                            let ghost eg = execution;
                            let r = after_quick_fix_ran(act, execution, counter);
                            proof {
                                lemma_match_trans(act0, act1, *act);
                            }
                            assert(after_fix(act_in, eg, *act, r));
                            assert(watched_transition(act_in, event, *act, r));
                            r
                        },
                    },
                }
            },
        }
            }
}

/// A needs-manual issue that carries its confirmation label is skipped for
/// the mutation cap only when the shared counter, as this step read it, had
/// reached the cap; when the counter was below the cap the step posts the
/// manual follow-up comment. `counts_seen` holds the values the counter had
/// whenever this issue's mutations were scheduled.
pub proof fn law_manual_follow_up_within_cap(before: WatchedIssueAct, after: WatchedIssueAct, r: WatchedIssueStep)
    requires
        before.stage == WatchedIssueStage::Start,
        before.action.decision == IssueWatchDecision::NeedsManual,
        !lacks_confirm_label(before),
        same_act(before, after),
        watched_transition(before, WatchedIssueEvent::Continue, after, r),
        schedulings_match(before, after),
        scheduled_below_cap(before, after, r),
    ensures
        r is PostComment || r is Done,
        r matches WatchedIssueStep::PostComment { body } ==> {
            &&& !cap_reached(after.counts_seen@.last(), before.max_mutations_per_run)
            &&& body@ == manual_follow_up_comment(manual_reason())
            &&& after.stage == WatchedIssueStage::AwaitingManualComment
        },
        r is Done ==> {
            &&& counts_at_cap(after.counts_seen@, before.max_mutations_per_run) == counts_at_cap(
                before.counts_seen@,
                before.max_mutations_per_run,
            ) + 1
            &&& after.action.skipped_reasons@ == before.action.skipped_reasons@.push(
                ProcessMutationSkipReason::MaxMutationsPerRunReached,
            )
        },
{
    lemma_refusal_push(before.action.skipped_reasons@, ProcessMutationSkipReason::MaxMutationsPerRunReached);
}

/// One step of acting on a watched issue: takes the outcome of the last
/// step and returns the next one.
///
/// An issue without the required confirmation label is skipped and never
/// changed. Every step that changes something (the quick fix, the follow-up
/// pull request, a comment) is first scheduled against the shared mutation
/// counter; when the cap is reached the skip is recorded instead.
#[verifier::spinoff_prover]
#[verifier::rlimit(60)]
pub fn act_on_watched_issue(act: &mut WatchedIssueAct, event: WatchedIssueEvent, counter: &AtomicUsize) -> (r: WatchedIssueStep)
    requires
        watched_event_fits(old(act).stage, event),
    ensures
        same_act(*old(act), *final(act)),
        watched_transition(*old(act), event, *final(act), r),
        old(act).stage == WatchedIssueStage::Start && lacks_confirm_label(*old(act)) ==> !mutating_step(r),
        r is Done <==> final(act).stage == WatchedIssueStage::Done,
        schedulings_match(*old(act), *final(act)),
        scheduled_below_cap(*old(act), *final(act), r),
{
    let ghost act_in = *act;
    assert(act_in == *old(act));
    let mut stage = WatchedIssueStage::Done;
    std::mem::swap(&mut stage, &mut act.stage);
    match stage {
        WatchedIssueStage::Start => {
            let ghost before = *act;
            let r = start_step(&mut *act, counter);
            assert(WatchedIssueAct { stage: WatchedIssueStage::Start, ..before } == act_in);
            assert(event == WatchedIssueEvent::Continue);
            assert(watched_transition(act_in, WatchedIssueEvent::Continue, *act, r));
            assert(watched_transition(*old(act), event, *act, r));
            r
        },
        WatchedIssueStage::AwaitingManualComment => match event {
            WatchedIssueEvent::CommentPosted(res) => {
                record_comment(
                    &mut act.action,
                    res,
                    Some("Triaged as needs_manual for human follow-up (scope or risk is non-trivial)."),
                    "Triaged as needs_manual for human follow-up (scope or risk is non-trivial).",
                    true,
                );
                assert(act.counts_seen@.subrange(0, act_in.counts_seen@.len() as int) =~= act_in.counts_seen@);
                WatchedIssueStep::Done
            },
            _ => WatchedIssueStep::Done,
        },
        WatchedIssueStage::AwaitingQuickFix => match event {
            WatchedIssueEvent::QuickFixFinished(e) => {
                let ghost eg = e;
                act.stage = WatchedIssueStage::AwaitingQuickFix;
                assert(*act == act_in);
                let r = after_quick_fix_ran(act, e, counter);
                assert(after_fix(act_in, eg, *act, r));
                r
            },
            _ => WatchedIssueStep::Done,
        },
        WatchedIssueStage::AwaitingFollowUpPr(e) => match event {
            WatchedIssueEvent::FollowUpPrFinished(res) => {
                let mut e2 = e;
                record_issue_pr(&mut e2, act.issue.number, res);
                let ghost e2g = e2;
                let ghost act0 = *act;
                let r = report_quick_fix(act, e2, counter);
                assert(act0.action == act_in.action);
                assert(reported(act_in, e2g, *act, r));
                r
            },
            _ => WatchedIssueStep::Done,
        },
        WatchedIssueStage::AwaitingResultComment { reason } => match event {
            WatchedIssueEvent::CommentPosted(res) => {
                match reason {
                    None => record_comment(
                        &mut act.action,
                        res,
                        None,
                        "Quick fix completed, but failed to post issue update comment: ",
                        false,
                    ),
                    Some(m) => record_comment(&mut act.action, res, None, m.as_str(), true),
                };
                assert(act.counts_seen@.subrange(0, act_in.counts_seen@.len() as int) =~= act_in.counts_seen@);
                WatchedIssueStep::Done
            },
            _ => WatchedIssueStep::Done,
        },
        WatchedIssueStage::Done => {
            assert(act.counts_seen@.subrange(0, act_in.counts_seen@.len() as int) =~= act_in.counts_seen@);
            WatchedIssueStep::Done
        },
    }
}

} // verus!
