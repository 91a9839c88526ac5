//! Keyword triage of review comments and watched issues, and the planned
//! action recorded for each triaged item.

use crate::guardrails::ProcessMutationSkipReason;
use crate::model::ProcessWatchIssueCandidate;
use crate::text::{
    chars_of, contains_char, contains_str, has_sub, lower, match_at, starts_with, starts_with_str,
    to_lower_vec,
};
use vstd::prelude::*;

verus! {

/// How a pull-request comment is handled in `pr-comments --act`.
#[derive(Debug, Clone, Copy, PartialEq, Eq)]
pub enum TriageDecision {
    QuickFix,
    NeedsIssue,
    Question,
}

/// How a watched issue is handled in `issues watch --act`.
#[derive(Debug, Clone, Copy, PartialEq, Eq)]
pub enum IssueWatchDecision {
    QuickFix,
    NeedsManual,
}

/// Words that defer a comment to a follow-up issue.
pub open spec fn mentions_deferral(n: Seq<char>) -> bool {
    ||| has_sub(n, "follow-up"@)
    ||| has_sub(n, "follow up"@)
    ||| has_sub(n, "separate issue"@)
    ||| has_sub(n, "tracking issue"@)
    ||| has_sub(n, "out of scope"@)
    ||| has_sub(n, "later"@)
    ||| has_sub(n, "future work"@)
    ||| has_sub(n, "tech debt"@)
    ||| has_sub(n, "defer"@)
}

/// Words that mark a comment as a small fix.
pub open spec fn mentions_small_fix(n: Seq<char>) -> bool {
    ||| has_sub(n, "nit"@)
    ||| has_sub(n, "typo"@)
    ||| has_sub(n, "rename"@)
    ||| has_sub(n, "format"@)
    ||| has_sub(n, "formatting"@)
    ||| has_sub(n, "small fix"@)
    ||| has_sub(n, "quick fix"@)
}

pub open spec fn reads_as_question(n: Seq<char>) -> bool {
    ||| n.contains('?')
    ||| starts_with(n, "why "@)
    ||| starts_with(n, "what "@)
    ||| starts_with(n, "can "@)
    ||| starts_with(n, "could "@)
}

/// Triage of a comment body, on its ASCII-lowercased text: deferral words
/// first, then small-fix words, then questions; anything else is a quick fix.
pub open spec fn comment_triage(body: Seq<char>) -> TriageDecision {
    let n = lower(body);
    if mentions_deferral(n) {
        TriageDecision::NeedsIssue
    } else if mentions_small_fix(n) {
        TriageDecision::QuickFix
    } else if reads_as_question(n) {
        TriageDecision::Question
    } else {
        TriageDecision::QuickFix
    }
}

pub fn classify_comment_triage(body: &str) -> (r: TriageDecision)
    ensures
        r == comment_triage(body@),
{
    let raw = chars_of(body);
    let n = to_lower_vec(&raw);
    if contains_str(&n, "follow-up") || contains_str(&n, "follow up") || contains_str(
        &n,
        "separate issue",
    ) || contains_str(&n, "tracking issue") || contains_str(&n, "out of scope") || contains_str(
        &n,
        "later",
    ) || contains_str(&n, "future work") || contains_str(&n, "tech debt") || contains_str(
        &n,
        "defer",
    ) {
        return TriageDecision::NeedsIssue;
    }
    if contains_str(&n, "nit") || contains_str(&n, "typo") || contains_str(&n, "rename")
        || contains_str(&n, "format") || contains_str(&n, "formatting") || contains_str(
        &n,
        "small fix",
    ) || contains_str(&n, "quick fix") {
        return TriageDecision::QuickFix;
    }
    if contains_char(&n, '?') || starts_with_str(&n, "why ") || starts_with_str(&n, "what ")
        || starts_with_str(&n, "can ") || starts_with_str(&n, "could ") {
        return TriageDecision::Question;
    }
    TriageDecision::QuickFix
}

/// Words that mark an issue as small enough for a quick fix.
pub open spec fn issue_mentions_small_change(n: Seq<char>) -> bool {
    ||| has_sub(n, "typo"@)
    ||| has_sub(n, "docs"@)
    ||| has_sub(n, "documentation"@)
    ||| has_sub(n, "readme"@)
    ||| has_sub(n, "format"@)
    ||| has_sub(n, "formatting"@)
    ||| has_sub(n, "lint"@)
    ||| has_sub(n, "rename"@)
    ||| has_sub(n, "nit"@)
    ||| has_sub(n, "small fix"@)
    ||| has_sub(n, "quick fix"@)
    ||| has_sub(n, "spelling"@)
    ||| has_sub(n, "comment"@)
}

/// Triage of an issue on its lowercased `"{title} {body}"`.
pub open spec fn issue_triage(title: Seq<char>, body: Seq<char>) -> IssueWatchDecision {
    if issue_mentions_small_change(lower(title + " "@ + body)) {
        IssueWatchDecision::QuickFix
    } else {
        IssueWatchDecision::NeedsManual
    }
}

pub fn classify_issue_watch_triage(issue: &ProcessWatchIssueCandidate) -> (r: IssueWatchDecision)
    ensures
        r == issue_triage(issue.title@, issue.body@),
{
    let mut combined = issue.title.clone();
    combined.append(" ");
    combined.append(issue.body.as_str());
    let raw = chars_of(combined.as_str());
    let n = to_lower_vec(&raw);
    if contains_str(&n, "typo") || contains_str(&n, "docs") || contains_str(&n, "documentation")
        || contains_str(&n, "readme") || contains_str(&n, "format") || contains_str(
        &n,
        "formatting",
    ) || contains_str(&n, "lint") || contains_str(&n, "rename") || contains_str(&n, "nit")
        || contains_str(&n, "small fix") || contains_str(&n, "quick fix") || contains_str(
        &n,
        "spelling",
    ) || contains_str(&n, "comment") {
        return IssueWatchDecision::QuickFix;
    }
    IssueWatchDecision::NeedsManual
}

pub open spec fn plan_prefix(dry_run: bool) -> Seq<char> {
    if dry_run {
        "Would"@
    } else {
        "Plan:"@
    }
}

pub open spec fn pr_comments_planned_action(
    decision: TriageDecision,
    skipped_reason: Option<ProcessMutationSkipReason>,
    dry_run: bool,
) -> Seq<char> {
    match skipped_reason {
        Some(ProcessMutationSkipReason::MaxActItemsCapReached) =>
            "Skipped: max act-items cap reached before this queued item."@,
        Some(ProcessMutationSkipReason::ConfirmLabelMissing) =>
            "Skipped: required confirmation label is missing."@,
        Some(ProcessMutationSkipReason::MaxMutationsPerRunReached) =>
            "Skipped: max mutations-per-run cap reached."@,
        None => match decision {
            TriageDecision::QuickFix => plan_prefix(dry_run)
                + " run targeted quick-fix automation (codex subprocess + branch/commit/push + follow-up PR/comment updates)."@,
            TriageDecision::NeedsIssue => plan_prefix(dry_run)
                + " create a follow-up GitHub issue linked to the source comment."@,
            TriageDecision::Question => plan_prefix(dry_run)
                + " leave for human reply; no automation mutation."@,
        },
    }
}

fn plan_prefix_string(dry_run: bool) -> (r: String)
    ensures
        r@ == plan_prefix(dry_run),
{
    if dry_run {
        String::from_str("Would")
    } else {
        String::from_str("Plan:")
    }
}

pub fn format_pr_comments_planned_action(
    decision: TriageDecision,
    skipped_reason: Option<ProcessMutationSkipReason>,
    dry_run: bool,
) -> (r: String)
    ensures
        r@ == pr_comments_planned_action(decision, skipped_reason, dry_run),
{
    if let Some(reason) = skipped_reason {
        return match reason {
            ProcessMutationSkipReason::MaxActItemsCapReached => String::from_str(
                "Skipped: max act-items cap reached before this queued item.",
            ),
            ProcessMutationSkipReason::ConfirmLabelMissing => String::from_str(
                "Skipped: required confirmation label is missing.",
            ),
            ProcessMutationSkipReason::MaxMutationsPerRunReached => String::from_str(
                "Skipped: max mutations-per-run cap reached.",
            ),
        };
    }
    let mut r = plan_prefix_string(dry_run);
    match decision {
        TriageDecision::QuickFix => r.append(
            " run targeted quick-fix automation (codex subprocess + branch/commit/push + follow-up PR/comment updates).",
        ),
        TriageDecision::NeedsIssue => r.append(
            " create a follow-up GitHub issue linked to the source comment.",
        ),
        TriageDecision::Question => r.append(" leave for human reply; no automation mutation."),
    }
    r
}

pub open spec fn issues_watch_planned_action(
    decision: IssueWatchDecision,
    skipped_reason: Option<ProcessMutationSkipReason>,
    dry_run: bool,
) -> Seq<char> {
    match skipped_reason {
        Some(ProcessMutationSkipReason::MaxActItemsCapReached) =>
            "Skipped: max act-items cap reached before this queued issue."@,
        Some(ProcessMutationSkipReason::ConfirmLabelMissing) =>
            "Skipped: required confirmation label is missing on this issue."@,
        Some(ProcessMutationSkipReason::MaxMutationsPerRunReached) =>
            "Skipped: max mutations-per-run cap reached."@,
        None => match decision {
            IssueWatchDecision::QuickFix => plan_prefix(dry_run)
                + " run targeted quick-fix automation (codex subprocess + branch/commit/push + follow-up PR + issue comment update)."@,
            IssueWatchDecision::NeedsManual => plan_prefix(dry_run)
                + " post a manual-follow-up guidance comment on the issue."@,
        },
    }
}

pub fn format_issues_watch_planned_action(
    decision: IssueWatchDecision,
    skipped_reason: Option<ProcessMutationSkipReason>,
    dry_run: bool,
) -> (r: String)
    ensures
        r@ == issues_watch_planned_action(decision, skipped_reason, dry_run),
{
    if let Some(reason) = skipped_reason {
        return match reason {
            ProcessMutationSkipReason::MaxActItemsCapReached => String::from_str(
                "Skipped: max act-items cap reached before this queued issue.",
            ),
            ProcessMutationSkipReason::ConfirmLabelMissing => String::from_str(
                "Skipped: required confirmation label is missing on this issue.",
            ),
            ProcessMutationSkipReason::MaxMutationsPerRunReached => String::from_str(
                "Skipped: max mutations-per-run cap reached.",
            ),
        };
    }
    let mut r = plan_prefix_string(dry_run);
    match decision {
        IssueWatchDecision::QuickFix => r.append(
            " run targeted quick-fix automation (codex subprocess + branch/commit/push + follow-up PR + issue comment update).",
        ),
        IssueWatchDecision::NeedsManual => r.append(
            " post a manual-follow-up guidance comment on the issue.",
        ),
    }
    r
}

// ---------------------------------------------------------------------------
// What triage decides
// ---------------------------------------------------------------------------

/// The words that defer a review comment to a follow-up issue.
pub open spec fn comment_deferral_words() -> Seq<Seq<char>> {
    seq!["follow-up"@, "follow up"@, "separate issue"@, "tracking issue"@, "out of scope"@, "later"@, "future work"@, "tech debt"@, "defer"@]
}

/// The words that mark a review comment as a small fix.
pub open spec fn comment_small_fix_words() -> Seq<Seq<char>> {
    seq!["nit"@, "typo"@, "rename"@, "format"@, "formatting"@, "small fix"@, "quick fix"@]
}

/// The words that mark a watched issue as small enough for a quick fix.
pub open spec fn issue_small_change_words() -> Seq<Seq<char>> {
    seq!["typo"@, "docs"@, "documentation"@, "readme"@, "format"@, "formatting"@, "lint"@, "rename"@, "nit"@, "small fix"@, "quick fix"@, "spelling"@, "comment"@]
}

proof fn lemma_deferral_words(n: Seq<char>)
    ensures
        mentions_deferral(n) <==> exists|i: int| 0 <= i < comment_deferral_words().len() && #[trigger] has_sub(n, comment_deferral_words()[i]),
{
    let w = comment_deferral_words();
    assert(w.len() == 9);
    assert(w[0] == "follow-up"@);
    assert(w[1] == "follow up"@);
    assert(w[2] == "separate issue"@);
    assert(w[3] == "tracking issue"@);
    assert(w[4] == "out of scope"@);
    assert(w[5] == "later"@);
    assert(w[6] == "future work"@);
    assert(w[7] == "tech debt"@);
    assert(w[8] == "defer"@);
    if exists|i: int| 0 <= i < w.len() && #[trigger] has_sub(n, w[i]) {
        let i = choose|i: int| 0 <= i < w.len() && #[trigger] has_sub(n, w[i]);
        if i == 0 {
            assert(has_sub(n, "follow-up"@));
        } else if i == 1 {
            assert(has_sub(n, "follow up"@));
        } else if i == 2 {
            assert(has_sub(n, "separate issue"@));
        } else if i == 3 {
            assert(has_sub(n, "tracking issue"@));
        } else if i == 4 {
            assert(has_sub(n, "out of scope"@));
        } else if i == 5 {
            assert(has_sub(n, "later"@));
        } else if i == 6 {
            assert(has_sub(n, "future work"@));
        } else if i == 7 {
            assert(has_sub(n, "tech debt"@));
        } else if i == 8 {
            assert(has_sub(n, "defer"@));
        }
    }
    if has_sub(n, "follow-up"@) {
        assert(has_sub(n, w[0]));
    }
    if has_sub(n, "follow up"@) {
        assert(has_sub(n, w[1]));
    }
    if has_sub(n, "separate issue"@) {
        assert(has_sub(n, w[2]));
    }
    if has_sub(n, "tracking issue"@) {
        assert(has_sub(n, w[3]));
    }
    if has_sub(n, "out of scope"@) {
        assert(has_sub(n, w[4]));
    }
    if has_sub(n, "later"@) {
        assert(has_sub(n, w[5]));
    }
    if has_sub(n, "future work"@) {
        assert(has_sub(n, w[6]));
    }
    if has_sub(n, "tech debt"@) {
        assert(has_sub(n, w[7]));
    }
    if has_sub(n, "defer"@) {
        assert(has_sub(n, w[8]));
    }
}

proof fn lemma_small_fix_words(n: Seq<char>)
    ensures
        mentions_small_fix(n) <==> exists|i: int| 0 <= i < comment_small_fix_words().len() && #[trigger] has_sub(n, comment_small_fix_words()[i]),
{
    let w = comment_small_fix_words();
    assert(w.len() == 7);
    assert(w[0] == "nit"@);
    assert(w[1] == "typo"@);
    assert(w[2] == "rename"@);
    assert(w[3] == "format"@);
    assert(w[4] == "formatting"@);
    assert(w[5] == "small fix"@);
    assert(w[6] == "quick fix"@);
    if exists|i: int| 0 <= i < w.len() && #[trigger] has_sub(n, w[i]) {
        let i = choose|i: int| 0 <= i < w.len() && #[trigger] has_sub(n, w[i]);
        if i == 0 {
            assert(has_sub(n, "nit"@));
        } else if i == 1 {
            assert(has_sub(n, "typo"@));
        } else if i == 2 {
            assert(has_sub(n, "rename"@));
        } else if i == 3 {
            assert(has_sub(n, "format"@));
        } else if i == 4 {
            assert(has_sub(n, "formatting"@));
        } else if i == 5 {
            assert(has_sub(n, "small fix"@));
        } else if i == 6 {
            assert(has_sub(n, "quick fix"@));
        }
    }
    if has_sub(n, "nit"@) {
        assert(has_sub(n, w[0]));
    }
    if has_sub(n, "typo"@) {
        assert(has_sub(n, w[1]));
    }
    if has_sub(n, "rename"@) {
        assert(has_sub(n, w[2]));
    }
    if has_sub(n, "format"@) {
        assert(has_sub(n, w[3]));
    }
    if has_sub(n, "formatting"@) {
        assert(has_sub(n, w[4]));
    }
    if has_sub(n, "small fix"@) {
        assert(has_sub(n, w[5]));
    }
    if has_sub(n, "quick fix"@) {
        assert(has_sub(n, w[6]));
    }
}

proof fn lemma_issue_words(n: Seq<char>)
    ensures
        issue_mentions_small_change(n) <==> exists|i: int| 0 <= i < issue_small_change_words().len() && #[trigger] has_sub(n, issue_small_change_words()[i]),
{
    let w = issue_small_change_words();
    assert(w.len() == 13);
    assert(w[0] == "typo"@);
    assert(w[1] == "docs"@);
    assert(w[2] == "documentation"@);
    assert(w[3] == "readme"@);
    assert(w[4] == "format"@);
    assert(w[5] == "formatting"@);
    assert(w[6] == "lint"@);
    assert(w[7] == "rename"@);
    assert(w[8] == "nit"@);
    assert(w[9] == "small fix"@);
    assert(w[10] == "quick fix"@);
    assert(w[11] == "spelling"@);
    assert(w[12] == "comment"@);
    if exists|i: int| 0 <= i < w.len() && #[trigger] has_sub(n, w[i]) {
        let i = choose|i: int| 0 <= i < w.len() && #[trigger] has_sub(n, w[i]);
        if i == 0 {
            assert(has_sub(n, "typo"@));
        } else if i == 1 {
            assert(has_sub(n, "docs"@));
        } else if i == 2 {
            assert(has_sub(n, "documentation"@));
        } else if i == 3 {
            assert(has_sub(n, "readme"@));
        } else if i == 4 {
            assert(has_sub(n, "format"@));
        } else if i == 5 {
            assert(has_sub(n, "formatting"@));
        } else if i == 6 {
            assert(has_sub(n, "lint"@));
        } else if i == 7 {
            assert(has_sub(n, "rename"@));
        } else if i == 8 {
            assert(has_sub(n, "nit"@));
        } else if i == 9 {
            assert(has_sub(n, "small fix"@));
        } else if i == 10 {
            assert(has_sub(n, "quick fix"@));
        } else if i == 11 {
            assert(has_sub(n, "spelling"@));
        } else if i == 12 {
            assert(has_sub(n, "comment"@));
        }
    }
    if has_sub(n, "typo"@) {
        assert(has_sub(n, w[0]));
    }
    if has_sub(n, "docs"@) {
        assert(has_sub(n, w[1]));
    }
    if has_sub(n, "documentation"@) {
        assert(has_sub(n, w[2]));
    }
    if has_sub(n, "readme"@) {
        assert(has_sub(n, w[3]));
    }
    if has_sub(n, "format"@) {
        assert(has_sub(n, w[4]));
    }
    if has_sub(n, "formatting"@) {
        assert(has_sub(n, w[5]));
    }
    if has_sub(n, "lint"@) {
        assert(has_sub(n, w[6]));
    }
    if has_sub(n, "rename"@) {
        assert(has_sub(n, w[7]));
    }
    if has_sub(n, "nit"@) {
        assert(has_sub(n, w[8]));
    }
    if has_sub(n, "small fix"@) {
        assert(has_sub(n, w[9]));
    }
    if has_sub(n, "quick fix"@) {
        assert(has_sub(n, w[10]));
    }
    if has_sub(n, "spelling"@) {
        assert(has_sub(n, w[11]));
    }
    if has_sub(n, "comment"@) {
        assert(has_sub(n, w[12]));
    }
}

/// A review comment becomes a follow-up issue exactly when its
/// ASCII-lowercased body contains one of the deferral words; a comment with
/// no deferral word but a small-fix word is a quick fix; a comment read as a
/// question has neither.
pub proof fn law_comment_triage_keywords(body: Seq<char>)
    ensures
        comment_triage(body) == TriageDecision::NeedsIssue <==> exists|i: int|
            0 <= i < comment_deferral_words().len() && #[trigger] has_sub(
                lower(body),
                comment_deferral_words()[i],
            ),
        (forall|i: int|
            0 <= i < comment_deferral_words().len() ==> !(#[trigger] has_sub(
                lower(body),
                comment_deferral_words()[i],
            ))) && (exists|j: int|
            0 <= j < comment_small_fix_words().len() && #[trigger] has_sub(
                lower(body),
                comment_small_fix_words()[j],
            )) ==> comment_triage(body) == TriageDecision::QuickFix,
        comment_triage(body) == TriageDecision::Question ==> forall|j: int|
            0 <= j < comment_small_fix_words().len() ==> !(#[trigger] has_sub(
                lower(body),
                comment_small_fix_words()[j],
            )),
{
    lemma_deferral_words(lower(body));
    lemma_small_fix_words(lower(body));
}

proof fn lemma_lower_concat(a: Seq<char>, b: Seq<char>)
    ensures
        lower(a + b) == lower(a) + lower(b),
{
    assert(lower(a + b) =~= lower(a) + lower(b));
}

proof fn lemma_has_sub_extend(a: Seq<char>, b: Seq<char>, w: Seq<char>)
    requires
        has_sub(a, w) || has_sub(b, w),
    ensures
        has_sub(a + b, w),
{
    if has_sub(a, w) {
        let i = choose|i: int| match_at(a, w, i);
        assert((a + b).subrange(i, i + w.len()) =~= a.subrange(i, i + w.len()));
        assert(match_at(a + b, w, i));
    } else {
        let i = choose|i: int| match_at(b, w, i);
        let k = a.len() + i;
        assert((a + b).subrange(k, k + w.len()) =~= b.subrange(i, i + w.len()));
        assert(match_at(a + b, w, k));
    }
}

/// A watched issue is a quick fix exactly when its lowercased
/// `"{title} {body}"` contains one of the small-change words; in particular
/// such a word in the title or in the body alone makes it one.
pub proof fn law_issue_triage_keywords(title: Seq<char>, body: Seq<char>, i: int)
    ensures
        issue_triage(title, body) == IssueWatchDecision::QuickFix <==> exists|j: int|
            0 <= j < issue_small_change_words().len() && #[trigger] has_sub(
                lower(title + " "@ + body),
                issue_small_change_words()[j],
            ),
        0 <= i < issue_small_change_words().len() && (has_sub(lower(title), issue_small_change_words()[i])
            || has_sub(lower(body), issue_small_change_words()[i])) ==> issue_triage(title, body)
            == IssueWatchDecision::QuickFix,
{
    let n = lower(title + " "@ + body);
    lemma_issue_words(n);
    if 0 <= i < issue_small_change_words().len() && (has_sub(lower(title), issue_small_change_words()[i])
        || has_sub(lower(body), issue_small_change_words()[i])) {
        let w = issue_small_change_words()[i];
        lemma_lower_concat(title + " "@, body);
        lemma_lower_concat(title, " "@);
        assert(title + " "@ + body == (title + " "@) + body);
        if has_sub(lower(title), w) {
            lemma_has_sub_extend(lower(title), lower(" "@), w);
            lemma_has_sub_extend(lower(title) + lower(" "@), lower(body), w);
        } else {
            lemma_has_sub_extend(lower(title) + lower(" "@), lower(body), w);
        }
        assert(has_sub(n, issue_small_change_words()[i]));
    }
}

} // verus!
