//! Mutation guardrails of the `--act` modes: settings, the per-run mutation
//! cap, the confirmation label, the act-queue cap and the clean-worktree check.

use crate::model::ProcessWatchIssueCandidate;
use crate::text::{
    chars_of, dec, join, join_prefix, lines, lines_vec, push_decimal, str_eq, str_views, string_of,
    trim_end_vec, trim_end_ws, views, keep_nonempty,
};
use std::sync::atomic::AtomicUsize;
use vstd::prelude::*;

verus! {

/// Why a mutating step was not performed.
#[derive(Debug, Clone, Copy, PartialEq, Eq)]
pub enum ProcessMutationSkipReason {
    MaxActItemsCapReached,
    ConfirmLabelMissing,
    MaxMutationsPerRunReached,
}

/// Guardrails in effect for one `--act` run.
#[derive(Debug, Clone, PartialEq, Eq)]
pub struct ProcessMutationGuardrailSettings {
    pub active: bool,
    pub require_clean_worktree: bool,
    pub confirm_label: Option<String>,
    pub max_mutations_per_run: Option<usize>,
}

pub open spec fn opt_str_view(o: Option<String>) -> Option<Seq<char>> {
    match o {
        Some(s) => Some(s@),
        None => None,
    }
}

pub open spec fn opt_ref_view(o: Option<&str>) -> Option<Seq<char>> {
    match o {
        Some(s) => Some(s@),
        None => None,
    }
}

pub fn build_guardrail_settings(
    active: bool,
    require_clean_worktree: bool,
    confirm_label: Option<&str>,
    max_mutations_per_run: Option<u32>,
) -> (r: ProcessMutationGuardrailSettings)
    ensures
        r.active == active,
        r.require_clean_worktree == require_clean_worktree,
        opt_str_view(r.confirm_label) == opt_ref_view(confirm_label),
        r.max_mutations_per_run == (match max_mutations_per_run {
            Some(v) => Some(v as usize),
            None => None::<usize>,
        }),
{
    let label = match confirm_label {
        Some(l) => Some(l.to_owned()),
        None => None,
    };
    let cap = match max_mutations_per_run {
        Some(v) => Some(v as usize),
        None => None,
    };
    ProcessMutationGuardrailSettings {
        active,
        require_clean_worktree,
        confirm_label: label,
        max_mutations_per_run: cap,
    }
}

pub open spec fn bool_text(b: bool) -> Seq<char> {
    if b {
        "true"@
    } else {
        "false"@
    }
}

/// The one-line summary of the guardrails printed when an `--act` run starts.
pub open spec fn guardrail_summary(s: ProcessMutationGuardrailSettings) -> Seq<char> {
    "Guardrails (act mode): active="@ + bool_text(s.active) + " requireCleanWorktree="@
        + bool_text(s.require_clean_worktree) + " confirmLabel="@ + (match s.confirm_label {
        Some(l) => l@,
        None => "none"@,
    }) + " maxMutationsPerRun="@ + (match s.max_mutations_per_run {
        Some(n) => dec(n as nat),
        None => "none"@,
    })
}

fn push_bool_text(r: &mut String, b: bool)
    ensures
        final(r)@ == old(r)@ + bool_text(b),
{
    if b {
        r.append("true");
    } else {
        r.append("false");
    }
}

/// Formats the guardrail summary line of an `--act` run.
pub fn guardrail_summary_line(settings: &ProcessMutationGuardrailSettings) -> (r: String)
    ensures
        r@ == guardrail_summary(*settings),
{
    let mut r = String::from_str("Guardrails (act mode): active=");
    push_bool_text(&mut r, settings.active);
    r.append(" requireCleanWorktree=");
    push_bool_text(&mut r, settings.require_clean_worktree);
    r.append(" confirmLabel=");
    match &settings.confirm_label {
        Some(l) => r.append(l.as_str()),
        None => r.append("none"),
    }
    r.append(" maxMutationsPerRun=");
    match settings.max_mutations_per_run {
        Some(n) => push_decimal(&mut r, n as u64),
        None => r.append("none"),
    }
    r
}

/// The cap is reached once `count` mutations have been scheduled.
pub open spec fn cap_reached(count: usize, max_mutations_per_run: Option<usize>) -> bool {
    match max_mutations_per_run {
        Some(cap) => count >= cap,
        None => false,
    }
}

/// Schedules one mutation unless the per-run cap is reached.
pub fn try_schedule_mutation(
    mutation_count: &mut usize,
    max_mutations_per_run: Option<usize>,
) -> (r: Option<ProcessMutationSkipReason>)
    requires
        !cap_reached(*old(mutation_count), max_mutations_per_run) ==> *old(mutation_count)
            < usize::MAX,
    ensures
        cap_reached(*old(mutation_count), max_mutations_per_run) ==> r == Some(
            ProcessMutationSkipReason::MaxMutationsPerRunReached,
        ) && *final(mutation_count) == *old(mutation_count),
        !cap_reached(*old(mutation_count), max_mutations_per_run) ==> r is None
            && *final(mutation_count) == *old(mutation_count) + 1,
{
    let reached = match max_mutations_per_run {
        Some(cap) => *mutation_count >= cap,
        None => false,
    };
    if reached {
        return Some(ProcessMutationSkipReason::MaxMutationsPerRunReached);
    }
    *mutation_count = *mutation_count + 1;
    None
}

/// The counter value that scheduling one more mutation stores, or `None`
/// when the cap is reached. The counter saturates at `usize::MAX`.
pub fn next_mutation_count(current: usize, max_mutations_per_run: Option<usize>) -> (r: Option<
    usize,
>)
    ensures
        cap_reached(current, max_mutations_per_run) ==> r is None,
        !cap_reached(current, max_mutations_per_run) ==> r == Some(
            current.saturating_add(1),
        ),
{
    let reached = match max_mutations_per_run {
        Some(cap) => current >= cap,
        None => false,
    };
    if reached {
        None
    } else {
        Some(current.saturating_add(1))
    }
}

/// `AtomicUsize::fetch_update` from std with `next_mutation_count` as the
/// update: `Ok(previous)` when the update returned `Some` for `previous` (the
/// cap was not reached) and the new value was stored, `Err(previous)` when it
/// returned `None` (the cap was reached).
#[verifier::external_body]
pub(crate) fn fetch_update_mutation_count(counter: &AtomicUsize, max_mutations_per_run: Option<usize>) -> (r:
    Result<usize, usize>)
    ensures
        r matches Ok(prev) ==> !cap_reached(prev, max_mutations_per_run),
        r matches Err(prev) ==> cap_reached(prev, max_mutations_per_run),
{
    counter.fetch_update(
        std::sync::atomic::Ordering::Relaxed,
        std::sync::atomic::Ordering::Relaxed,
        |current| next_mutation_count(current, max_mutations_per_run),
    )
}

/// Atomic variant of `try_schedule_mutation` for concurrent workers: the
/// counter is read and advanced in one atomic step.
///
/// Without a cap every mutation is scheduled; with a cap of zero none is.
/// Under any other cap the outcome depends on what the other workers have
/// already scheduled on the shared counter.
pub fn try_schedule_mutation_atomic(
    mutation_count: &AtomicUsize,
    max_mutations_per_run: Option<usize>,
) -> (r: Option<ProcessMutationSkipReason>)
    ensures
        r is None || r == Some(ProcessMutationSkipReason::MaxMutationsPerRunReached),
        r is Some ==> max_mutations_per_run is Some,
        max_mutations_per_run is None ==> r is None,
        max_mutations_per_run == Some(0usize) ==> r == Some(
            ProcessMutationSkipReason::MaxMutationsPerRunReached,
        ),
{
    match fetch_update_mutation_count(mutation_count, max_mutations_per_run) {
        Ok(_) => None,
        Err(_) => Some(ProcessMutationSkipReason::MaxMutationsPerRunReached),
    }
}

pub open spec fn has_label(labels: Seq<String>, label: Seq<char>) -> bool {
    exists|i: int| 0 <= i < labels.len() && #[trigger] labels[i]@ == label
}

pub fn issue_has_confirm_label(issue: &ProcessWatchIssueCandidate, confirm_label: &str) -> (b: bool)
    ensures
        b == has_label(issue.labels@, confirm_label@),
{
    let mut i: usize = 0;
    while i < issue.labels.len()
        invariant
            i <= issue.labels@.len(),
            forall|t: int| 0 <= t < i ==> issue.labels@[t]@ != confirm_label@,
        decreases issue.labels@.len() - i,
    {
        if str_eq(issue.labels[i].as_str(), confirm_label) {
            return true;
        }
        i = i + 1;
    }
    false
}

/// An issue carries the confirmation label when any of its labels, at any
/// position, equals it: a label equal to it anywhere gives true, none gives
/// false, and putting another label before or after the list changes the
/// answer only by that label itself.
pub proof fn law_confirm_label_anywhere(labels: Seq<String>, label: Seq<char>, i: int, other: String)
    ensures
        0 <= i < labels.len() && labels[i]@ == label ==> has_label(labels, label),
        (forall|k: int| 0 <= k < labels.len() ==> (#[trigger] labels[k])@ != label) ==> !has_label(labels, label),
        has_label(labels.push(other), label) == (has_label(labels, label) || other@ == label),
        has_label(seq![other] + labels, label) == (other@ == label || has_label(labels, label)),
{
    let pushed = labels.push(other);
    if has_label(labels, label) {
        let k = choose|k: int| 0 <= k < labels.len() && #[trigger] labels[k]@ == label;
        assert(pushed[k] == labels[k]);
        assert((seq![other] + labels)[k + 1] == labels[k]);
    }
    if other@ == label {
        assert(pushed[labels.len() as int] == other);
        assert((seq![other] + labels)[0] == other);
    }
    if has_label(pushed, label) {
        let k = choose|k: int| 0 <= k < pushed.len() && #[trigger] pushed[k]@ == label;
        if k < labels.len() {
            assert(pushed[k] == labels[k]);
        }
    }
    let front = seq![other] + labels;
    if has_label(front, label) {
        let k = choose|k: int| 0 <= k < front.len() && #[trigger] front[k]@ == label;
        if k > 0 {
            assert(front[k] == labels[k - 1]);
        }
    }
}

#[derive(Debug, Clone, PartialEq, Eq)]
pub struct ProcessIssuesWatchActQueueSkippedIssue {
    pub issue_index: usize,
    pub reason: ProcessMutationSkipReason,
}

#[derive(Debug, Clone, PartialEq, Eq)]
pub struct ProcessIssuesWatchActQueuePlan {
    pub acted_indices: Vec<usize>,
    pub skipped: Vec<ProcessIssuesWatchActQueueSkippedIssue>,
}

/// How many queued issues are acted on.
pub open spec fn allowed_act_items(total_issues: nat, max_act_items: Option<usize>) -> nat {
    match max_act_items {
        Some(cap) => if cap < total_issues {
            cap as nat
        } else {
            total_issues
        },
        None => total_issues,
    }
}

/// The first `allowed` issues are acted on, in order; each later one is
/// skipped because the act-items cap is reached.
pub fn build_process_issues_watch_act_queue_plan(
    total_issues: usize,
    max_act_items: Option<usize>,
) -> (r: ProcessIssuesWatchActQueuePlan)
    ensures
        r.acted_indices@.len() == allowed_act_items(total_issues as nat, max_act_items),
        forall|i: int| 0 <= i < r.acted_indices@.len() ==> r.acted_indices@[i] == i,
        r.skipped@.len() == total_issues - allowed_act_items(total_issues as nat, max_act_items),
        forall|i: int|
            0 <= i < r.skipped@.len() ==> (#[trigger] r.skipped@[i]).issue_index == allowed_act_items(
                total_issues as nat,
                max_act_items,
            ) + i && r.skipped@[i].reason == ProcessMutationSkipReason::MaxActItemsCapReached,
{
    let allowed = match max_act_items {
        Some(cap) => if cap < total_issues {
            cap
        } else {
            total_issues
        },
        None => total_issues,
    };
    let mut acted_indices: Vec<usize> = Vec::new();
    let mut i: usize = 0;
    while i < allowed
        invariant
            i <= allowed <= total_issues,
            acted_indices@.len() == i,
            forall|t: int| 0 <= t < i ==> acted_indices@[t] == t,
        decreases allowed - i,
    {
        acted_indices.push(i);
        i = i + 1;
    }
    let mut skipped: Vec<ProcessIssuesWatchActQueueSkippedIssue> = Vec::new();
    let mut j: usize = allowed;
    while j < total_issues
        invariant
            allowed <= j <= total_issues,
            skipped@.len() == j - allowed,
            forall|t: int|
                0 <= t < skipped@.len() ==> (#[trigger] skipped@[t]).issue_index == allowed + t
                    && skipped@[t].reason == ProcessMutationSkipReason::MaxActItemsCapReached,
        decreases total_issues - j,
    {
        skipped.push(
            ProcessIssuesWatchActQueueSkippedIssue {
                issue_index: j,
                reason: ProcessMutationSkipReason::MaxActItemsCapReached,
            },
        );
        j = j + 1;
    }
    ProcessIssuesWatchActQueuePlan { acted_indices, skipped }
}

/// Every issue index below `total_issues` is either acted on or skipped, and
/// never both: the act queue and the skip list partition the fetched issues.
pub proof fn law_queue_plan_partitions_issues(
    total_issues: usize,
    max_act_items: Option<usize>,
    plan: ProcessIssuesWatchActQueuePlan,
    k: int,
)
    requires
        plan.acted_indices@.len() == allowed_act_items(total_issues as nat, max_act_items),
        forall|i: int| 0 <= i < plan.acted_indices@.len() ==> plan.acted_indices@[i] == i,
        plan.skipped@.len() == total_issues - allowed_act_items(total_issues as nat, max_act_items),
        forall|i: int|
            0 <= i < plan.skipped@.len() ==> (#[trigger] plan.skipped@[i]).issue_index
                == allowed_act_items(total_issues as nat, max_act_items) + i,
        0 <= k < total_issues,
    ensures
        plan.acted_indices@.contains(k as usize) != (exists|i: int|
            0 <= i < plan.skipped@.len() && #[trigger] plan.skipped@[i].issue_index == k),
        plan.acted_indices@.len() + plan.skipped@.len() == total_issues,
{
    let a = allowed_act_items(total_issues as nat, max_act_items);
    if k < a {
        assert(plan.acted_indices@[k] == k);
        assert forall|i: int| 0 <= i < plan.skipped@.len() implies #[trigger] plan.skipped@[i].issue_index
            != k by {}
    } else {
        let i = k - a;
        assert(plan.skipped@[i].issue_index == k);
        assert forall|t: int| 0 <= t < plan.acted_indices@.len() implies plan.acted_indices@[t] != k as usize by {}
    }
}

/// Non-empty lines of `git status --porcelain` output with trailing
/// whitespace removed.
pub open spec fn porcelain_entries(output: Seq<char>) -> Seq<Seq<char>> {
    keep_nonempty(lines(output).map_values(|l: Seq<char>| trim_end_ws(l)))
}

pub fn parse_git_status_porcelain_entries(output: &str) -> (r: Vec<String>)
    ensures
        str_views(r@) == porcelain_entries(output@),
{
    let chars = chars_of(output);
    let ls = lines_vec(&chars);
    let ghost trimmed = lines(output@).map_values(|l: Seq<char>| trim_end_ws(l));
    let mut r: Vec<String> = Vec::new();
    let mut i: usize = 0;
    assert(trimmed.take(0) =~= Seq::<Seq<char>>::empty());
    assert(str_views(r@) =~= Seq::<Seq<char>>::empty());
    while i < ls.len()
        invariant
            i <= ls@.len(),
            views(ls@) == lines(output@),
            trimmed == lines(output@).map_values(|l: Seq<char>| trim_end_ws(l)),
            trimmed.len() == ls@.len(),
            str_views(r@) == keep_nonempty(trimmed.take(i as int)),
        decreases ls@.len() - i,
    {
        assert(views(ls@)[i as int] == ls@[i as int]@);
        let t = trim_end_vec(&ls[i]);
        assert(trimmed.take(i + 1).drop_last() =~= trimmed.take(i as int));
        assert(trimmed.take(i + 1).last() == t@);
        if t.len() > 0 {
            let s = string_of(&t);
            r.push(s);
            assert(str_views(r@) =~= keep_nonempty(trimmed.take(i + 1)));
        } else {
            assert(str_views(r@) =~= keep_nonempty(trimmed.take(i + 1)));
        }
        i = i + 1;
    }
    assert(trimmed.take(ls@.len() as int) =~= trimmed);
    r
}

pub open spec fn clean_worktree_error(entries: Seq<Seq<char>>) -> Seq<char> {
    let n = entries.len();
    let preview = join(entries.take(if n < 5 { n as int } else { 5 }), "; "@);
    if n > 5 {
        "Guardrail `--require-clean-worktree` blocked mutations: found "@ + dec(n)
            + " uncommitted change(s). First entries: "@ + preview
    } else {
        "Guardrail `--require-clean-worktree` blocked mutations: found "@ + dec(n)
            + " uncommitted change(s): "@ + preview
    }
}

pub fn format_clean_worktree_guardrail_error(entries: &[String]) -> (r: String)
    ensures
        r@ == clean_worktree_error(str_views(entries@)),
{
    let n = entries.len();
    let shown = if n < 5 {
        n
    } else {
        5
    };
    let preview = join_prefix(entries, shown, "; ");
    assert(str_views(entries@.take(shown as int)) =~= str_views(entries@).take(shown as int));
    let mut r = String::from_str(
        "Guardrail `--require-clean-worktree` blocked mutations: found ",
    );
    push_decimal(&mut r, n as u64);
    if n > 5 {
        r.append(" uncommitted change(s). First entries: ");
    } else {
        r.append(" uncommitted change(s): ");
    }
    r.append(preview.as_str());
    r
}

} // verus!
