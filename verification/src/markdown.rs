//! The Markdown that process mode posts to GitHub: follow-up issue and pull
//! request bodies, issue comments, the pull-request update comment, and the
//! suggested next actions of the artifacts.

use crate::gh_retry::utf8_len;
use crate::model::{
    GroupedByType, ProcessCommentTriageItem, ProcessWatchIssue, ProcessWatchIssueCandidate,
    QuickFixSummary,
};
use crate::text::{
    chars_of, dec, join, join_strings, lines, lines_vec, push_decimal, str_views, string_of,
    trim_end_vec, trim_end_ws, trim_vec, trim_ws, views,
};
use crate::guardrails::opt_ref_view;
use vstd::prelude::*;
use vstd::string::StringSliceAdditionalSpecFns;
use vstd::utf8::{decode_utf8, encode_utf8, is_char_boundary};

verus! {

// ---------------------------------------------------------------------------
// Block quotes
// ---------------------------------------------------------------------------

pub open spec fn quote_line(l: Seq<char>) -> Seq<char> {
    if trim_ws(l).len() == 0 {
        ">"@
    } else {
        "> "@ + trim_end_ws(l)
    }
}

/// Every line quoted (blank lines as a bare `>`), or a placeholder for a
/// text without lines.
pub open spec fn blockquote(text: Seq<char>) -> Seq<char> {
    let ls = lines(text);
    if ls.len() == 0 {
        "> (empty comment)"@
    } else {
        join(ls.map_values(|l: Seq<char>| quote_line(l)), "\n"@)
    }
}

pub fn to_markdown_blockquote(text: &str) -> (r: String)
    ensures
        r@ == blockquote(text@),
{
    let cs = chars_of(text);
    let ls = lines_vec(&cs);
    if ls.len() == 0 {
        return String::from_str("> (empty comment)");
    }
    let ghost quoted = lines(text@).map_values(|l: Seq<char>| quote_line(l));
    let mut out: Vec<String> = Vec::new();
    let mut i: usize = 0;
    while i < ls.len()
        invariant
            i <= ls@.len(),
            views(ls@) == lines(text@),
            quoted == lines(text@).map_values(|l: Seq<char>| quote_line(l)),
            out@.len() == i,
            forall|t: int| 0 <= t < i ==> #[trigger] out@[t]@ == quoted[t],
        decreases ls@.len() - i,
    {
        assert(views(ls@)[i as int] == ls@[i as int]@);
        let t = trim_vec(&ls[i]);
        if t.len() == 0 {
            out.push(String::from_str(">"));
        } else {
            let e = trim_end_vec(&ls[i]);
            let mut l = String::from_str("> ");
            crate::text::push_chars(&mut l, &e);
            out.push(l);
        }
        i = i + 1;
    }
    assert(str_views(out@) =~= quoted);
    join_strings(out.as_slice(), "\n")
}

// ---------------------------------------------------------------------------
// Follow-up issue and pull-request bodies
// ---------------------------------------------------------------------------

pub open spec fn follow_up_issue_body(
    repo: Seq<char>,
    pr: u64,
    comment_url: Seq<char>,
    comment_body: Seq<char>,
) -> Seq<char> {
    "Created by `codex process pr-comments --act`.\n\n- Source PR: https://github.com/"@ + repo
        + "/pull/"@ + dec(pr as nat) + "\n- Source comment: "@ + comment_url
        + "\n\nOriginal comment:\n\n"@ + blockquote(comment_body) + "\n"@
}

pub fn format_follow_up_issue_body(repo: &str, pr: u64, comment_url: &str, comment_body: &str) -> (r:
    String)
    ensures
        r@ == follow_up_issue_body(repo@, pr, comment_url@, comment_body@),
{
    let mut r = String::from_str(
        "Created by `codex process pr-comments --act`.\n\n- Source PR: https://github.com/",
    );
    r.append(repo);
    r.append("/pull/");
    push_decimal(&mut r, pr);
    r.append("\n- Source comment: ");
    r.append(comment_url);
    r.append("\n\nOriginal comment:\n\n");
    let q = to_markdown_blockquote(comment_body);
    r.append(q.as_str());
    r.append("\n");
    r
}

pub open spec fn commit_line(commit_url: Option<Seq<char>>) -> Seq<char> {
    match commit_url {
        Some(u) => "- Quick-fix commit: "@ + u + "\n"@,
        None => Seq::<char>::empty(),
    }
}

pub open spec fn quick_fix_follow_up_pr_body(
    repo: Seq<char>,
    pr: u64,
    comment_url: Seq<char>,
    body: Seq<char>,
    commit_url: Option<Seq<char>>,
) -> Seq<char> {
    "Created by `codex process pr-comments --act`.\n\n- Source PR: https://github.com/"@ + repo
        + "/pull/"@ + dec(pr as nat) + "\n- Source comment: "@ + comment_url + "\n"@ + commit_line(
        commit_url,
    ) + "\nOriginal comment:\n\n"@ + blockquote(body) + "\n"@
}

fn append_commit_line(r: &mut String, commit_url: Option<&str>)
    ensures
        final(r)@ == old(r)@ + commit_line(opt_ref_view(commit_url)),
{
    if let Some(u) = commit_url {
        r.append("- Quick-fix commit: ");
        r.append(u);
        r.append("\n");
    } else {
        assert(old(r)@ + commit_line(opt_ref_view(commit_url)) =~= old(r)@);
    }
}

pub fn format_quick_fix_follow_up_pr_body(
    repo: &str,
    pr: u64,
    item: &ProcessCommentTriageItem,
    commit_url: Option<&str>,
) -> (r: String)
    ensures
        r@ == quick_fix_follow_up_pr_body(
            repo@,
            pr,
            item.comment_url@,
            item.body@,
            opt_ref_view(commit_url),
        ),
{
    let mut r = String::from_str(
        "Created by `codex process pr-comments --act`.\n\n- Source PR: https://github.com/",
    );
    r.append(repo);
    r.append("/pull/");
    push_decimal(&mut r, pr);
    r.append("\n- Source comment: ");
    r.append(item.comment_url.as_str());
    r.append("\n");
    append_commit_line(&mut r, commit_url);
    r.append("\nOriginal comment:\n\n");
    let q = to_markdown_blockquote(item.body.as_str());
    r.append(q.as_str());
    r.append("\n");
    r
}

pub open spec fn issue_watch_follow_up_pr_body(
    repo: Seq<char>,
    number: u64,
    url: Seq<char>,
    title: Seq<char>,
    commit_url: Option<Seq<char>>,
) -> Seq<char> {
    "Created by `codex process issues watch --act`.\n\n- Source issue: "@ + url
        + "\n- Repository: https://github.com/"@ + repo + "\n"@ + commit_line(commit_url)
        + "\nIssue summary:\n\n"@ + "- #"@ + dec(number as nat) + ": "@ + title + "\n"@
}

pub fn format_issue_watch_follow_up_pr_body(
    repo: &str,
    issue: &ProcessWatchIssueCandidate,
    commit_url: Option<&str>,
) -> (r: String)
    ensures
        r@ == issue_watch_follow_up_pr_body(
            repo@,
            issue.number,
            issue.url@,
            issue.title@,
            opt_ref_view(commit_url),
        ),
{
    let mut r = String::from_str("Created by `codex process issues watch --act`.\n\n- Source issue: ");
    r.append(issue.url.as_str());
    r.append("\n- Repository: https://github.com/");
    r.append(repo);
    r.append("\n");
    append_commit_line(&mut r, commit_url);
    r.append("\nIssue summary:\n\n");
    r.append("- #");
    push_decimal(&mut r, issue.number);
    r.append(": ");
    r.append(issue.title.as_str());
    r.append("\n");
    r
}

// ---------------------------------------------------------------------------
// Issue comments
// ---------------------------------------------------------------------------

pub open spec fn issue_watch_success_comment(
    summary: Option<Seq<char>>,
    pr_url: Option<Seq<char>>,
    pr_number: Option<u64>,
    commit_url: Option<Seq<char>>,
) -> Seq<char> {
    "Automation update from `codex process issues watch --act`.\n\n"@ + (match summary {
        Some(s) => "- Result: "@ + s + "\n"@,
        None => "- Result: Applied targeted quick fix.\n"@,
    }) + (match (pr_url, pr_number) {
        (Some(u), Some(n)) => "- Follow-up PR: [#"@ + dec(n as nat) + "]("@ + u + ")\n"@,
        (Some(u), None) => "- Follow-up PR: "@ + u + "\n"@,
        (None, _) => Seq::<char>::empty(),
    }) + (match commit_url {
        Some(c) => "- Commit: "@ + c + "\n"@,
        None => Seq::<char>::empty(),
    })
}

pub fn format_issue_watch_success_comment(
    summary: Option<&str>,
    pr_url: Option<&str>,
    pr_number: Option<u64>,
    commit_url: Option<&str>,
) -> (r: String)
    ensures
        r@ == issue_watch_success_comment(
            opt_ref_view(summary),
            opt_ref_view(pr_url),
            pr_number,
            opt_ref_view(commit_url),
        ),
{
    let mut r = String::from_str("Automation update from `codex process issues watch --act`.\n\n");
    let ghost head = r@;
    match summary {
        Some(s) => {
            r.append("- Result: ");
            r.append(s);
            r.append("\n");
        },
        None => {
            r.append("- Result: Applied targeted quick fix.\n");
        },
    }
    let ghost with_result = r@;
    match (pr_url, pr_number) {
        (Some(u), Some(n)) => {
            r.append("- Follow-up PR: [#");
            push_decimal(&mut r, n);
            r.append("](");
            r.append(u);
            r.append(")\n");
        },
        (Some(u), None) => {
            r.append("- Follow-up PR: ");
            r.append(u);
            r.append("\n");
        },
        (None, _) => {},
    }
    let ghost with_pr = r@;
    match commit_url {
        Some(c) => {
            r.append("- Commit: ");
            r.append(c);
            r.append("\n");
        },
        None => {},
    }
    assert(r@ =~= issue_watch_success_comment(
        opt_ref_view(summary),
        opt_ref_view(pr_url),
        pr_number,
        opt_ref_view(commit_url),
    ));
    r
}

pub open spec fn manual_follow_up_comment(reason: Seq<char>) -> Seq<char> {
    "Automation update from `codex process issues watch --act`.\n\nManual follow-up needed: "@
        + reason + "\n"@
}

pub fn format_issue_watch_manual_follow_up_comment(reason: &str) -> (r: String)
    ensures
        r@ == manual_follow_up_comment(reason@),
{
    let mut r = String::from_str(
        "Automation update from `codex process issues watch --act`.\n\nManual follow-up needed: ",
    );
    r.append(reason);
    r.append("\n");
    r
}

// ---------------------------------------------------------------------------
// The pull-request update comment
// ---------------------------------------------------------------------------

/// `sha` cut to its first 12 bytes when it is longer (`&sha[..12]`).
pub open spec fn short_sha(sha: Seq<char>) -> Seq<char> {
    if utf8_len(sha) > 12 {
        decode_utf8(encode_utf8(sha).take(12))
    } else {
        sha
    }
}

/// Slicing at byte 12 needs a char boundary there.
pub open spec fn short_sha_sliceable(sha: Seq<char>) -> bool {
    utf8_len(sha) > 12 ==> is_char_boundary(encode_utf8(sha), 12)
}

pub fn short_commit_sha(sha: &str) -> (r: &str)
    requires
        short_sha_sliceable(sha@),
    ensures
        r@ == short_sha(sha@),
{
    if sha.len() > 12 {
        let (head, _) = sha.split_at(12);
        proof {
            vstd::utf8::encode_utf8_decode_utf8(head@);
            assert(head.spec_bytes() =~= encode_utf8(sha@).take(12));
        }
        return head;
    }
    sha
}

pub open spec fn opt_view(o: Option<String>) -> Option<Seq<char>> {
    match o {
        Some(s) => Some(s@),
        None => None,
    }
}

pub open spec fn files_part(item: QuickFixSummary) -> Seq<char> {
    if item.files@.len() > 0 {
        " (files: "@ + join(str_views(item.files@), ", "@) + ")"@
    } else {
        Seq::<char>::empty()
    }
}

pub open spec fn verification_part(item: QuickFixSummary) -> Seq<char> {
    match item.verification {
        Some(v) => "; verification: "@ + v@,
        None => Seq::<char>::empty(),
    }
}

pub open spec fn commit_part(item: QuickFixSummary) -> Seq<char> {
    match (item.commit_sha, item.commit_url) {
        (Some(sha), Some(url)) => "; commit: [`"@ + short_sha(sha@) + "`]("@ + url@ + ")"@,
        _ => Seq::<char>::empty(),
    }
}

pub open spec fn follow_up_pr_part(item: QuickFixSummary) -> Seq<char> {
    match item.follow_up_pr_url {
        Some(u) => match item.follow_up_pr_number {
            Some(n) => "; follow-up PR: [#"@ + dec(n as nat) + "]("@ + u@ + ")"@,
            None => "; follow-up PR: "@ + u@,
        },
        None => Seq::<char>::empty(),
    }
}

pub open spec fn thread_part(item: QuickFixSummary) -> Seq<char> {
    match item.thread_resolved {
        Some(true) => "; review thread: resolved"@,
        Some(false) => "; review thread: resolution failed"@ + (match item.thread_resolve_error {
            Some(e) => " ("@ + e@ + ")"@,
            None => Seq::<char>::empty(),
        }),
        None => Seq::<char>::empty(),
    }
}

/// The line of one applied quick fix: id and summary, then the files, the
/// verification, the commit, the follow-up PR and the thread resolution
/// where known.
pub open spec fn update_line(item: QuickFixSummary) -> Seq<char> {
    "- `"@ + item.comment_id@ + "`: "@ + item.summary@ + files_part(item) + verification_part(item)
        + commit_part(item) + follow_up_pr_part(item) + thread_part(item)
}

pub open spec fn update_lines(items: Seq<QuickFixSummary>) -> Seq<char>
    decreases items.len(),
{
    if items.len() == 0 {
        Seq::<char>::empty()
    } else {
        update_lines(items.drop_last()) + update_line(items.last()) + "\n"@
    }
}

pub open spec fn pr_update_comment_body(items: Seq<QuickFixSummary>) -> Seq<char> {
    "Quick-fix update from `codex process pr-comments --act`.\n\nApplied items:\n"@ + update_lines(
        items,
    )
}

/// Every commit sha that the comment shortens can be sliced at byte 12.
pub open spec fn summaries_sliceable(items: Seq<QuickFixSummary>) -> bool {
    forall|i: int|
        0 <= i < items.len() ==> match (#[trigger] items[i]).commit_sha {
            Some(sha) => short_sha_sliceable(sha@),
            None => true,
        }
}

fn append_files_part(body: &mut String, item: &QuickFixSummary)
    ensures
        final(body)@ == old(body)@ + files_part(*item),
{
    if item.files.len() > 0 {
        let files = join_strings(item.files.as_slice(), ", ");
        body.append(" (files: ");
        body.append(files.as_str());
        body.append(")");
    } else {
        assert(old(body)@ + files_part(*item) =~= old(body)@);
    }
}

fn append_verification_part(body: &mut String, item: &QuickFixSummary)
    ensures
        final(body)@ == old(body)@ + verification_part(*item),
{
    if let Some(v) = &item.verification {
        body.append("; verification: ");
        body.append(v.as_str());
    } else {
        assert(old(body)@ + verification_part(*item) =~= old(body)@);
    }
}

fn append_commit_part(body: &mut String, item: &QuickFixSummary)
    requires
        match item.commit_sha {
            Some(sha) => short_sha_sliceable(sha@),
            None => true,
        },
    ensures
        final(body)@ == old(body)@ + commit_part(*item),
{
    match (&item.commit_sha, &item.commit_url) {
        (Some(sha), Some(url)) => {
            body.append("; commit: [`");
            body.append(short_commit_sha(sha.as_str()));
            body.append("`](");
            body.append(url.as_str());
            body.append(")");
        },
        _ => {
            assert(old(body)@ + commit_part(*item) =~= old(body)@);
        },
    }
}

fn append_follow_up_pr_part(body: &mut String, item: &QuickFixSummary)
    ensures
        final(body)@ == old(body)@ + follow_up_pr_part(*item),
{
    if let Some(u) = &item.follow_up_pr_url {
        if let Some(n) = item.follow_up_pr_number {
            body.append("; follow-up PR: [#");
            push_decimal(body, n);
            body.append("](");
            body.append(u.as_str());
            body.append(")");
        } else {
            body.append("; follow-up PR: ");
            body.append(u.as_str());
        }
    } else {
        assert(old(body)@ + follow_up_pr_part(*item) =~= old(body)@);
    }
}

fn append_thread_part(body: &mut String, item: &QuickFixSummary)
    ensures
        final(body)@ == old(body)@ + thread_part(*item),
{
    if let Some(resolved) = item.thread_resolved {
        if resolved {
            body.append("; review thread: resolved");
        } else {
            body.append("; review thread: resolution failed");
            if let Some(e) = &item.thread_resolve_error {
                body.append(" (");
                body.append(e.as_str());
                body.append(")");
            } else {
                assert(body@ + Seq::<char>::empty() =~= body@);
            }
        }
    } else {
        assert(old(body)@ + thread_part(*item) =~= old(body)@);
    }
}

fn append_update_line(body: &mut String, item: &QuickFixSummary)
    requires
        match item.commit_sha {
            Some(sha) => short_sha_sliceable(sha@),
            None => true,
        },
    ensures
        final(body)@ == old(body)@ + update_line(*item) + "\n"@,
{
    let ghost start = old(body)@;
    body.append("- `");
    body.append(item.comment_id.as_str());
    body.append("`: ");
    body.append(item.summary.as_str());
    append_files_part(body, item);
    append_verification_part(body, item);
    append_commit_part(body, item);
    append_follow_up_pr_part(body, item);
    append_thread_part(body, item);
    body.append("\n");
    assert(body@ =~= start + update_line(*item) + "\n"@);
}

pub fn format_pr_update_comment_body(summaries: &[QuickFixSummary]) -> (r: String)
    requires
        summaries_sliceable(summaries@),
    ensures
        r@ == pr_update_comment_body(summaries@),
{
    let mut body = String::from_str(
        "Quick-fix update from `codex process pr-comments --act`.\n\nApplied items:\n",
    );
    let ghost head = body@;
    let mut i: usize = 0;
    assert(summaries@.take(0) =~= Seq::<QuickFixSummary>::empty());
    while i < summaries.len()
        invariant
            i <= summaries@.len(),
            summaries_sliceable(summaries@),
            head == "Quick-fix update from `codex process pr-comments --act`.\n\nApplied items:\n"@,
            body@ == head + update_lines(summaries@.take(i as int)),
        decreases summaries@.len() - i,
    {
        assert(summaries@.take(i + 1).drop_last() =~= summaries@.take(i as int));
        assert(summaries@.take(i + 1).last() == summaries@[i as int]);
        let ghost before = body@;
        append_update_line(&mut body, &summaries[i]);
        assert(body@ =~= head + update_lines(summaries@.take(i + 1)));
        i = i + 1;
    }
    assert(summaries@.take(summaries@.len() as int) =~= summaries@);
    body
}

// ---------------------------------------------------------------------------
// Suggested next actions
// ---------------------------------------------------------------------------

pub open spec fn next_actions(g: GroupedByType) -> Seq<Seq<char>> {
    (if g.unresolved_review_comments > 0 {
        seq!["Address unresolved review comments first."@]
    } else {
        Seq::<Seq<char>>::empty()
    }) + (if g.open_issue_comments > 0 {
        seq!["Reply to open issue comments on the PR conversation."@]
    } else {
        Seq::<Seq<char>>::empty()
    }) + (if g.total == 0 {
        seq!["No open comments found; proceed with final verification and merge checks."@]
    } else {
        seq![
            "After fixes, rerun `codex process pr-comments --repo <owner/name> --pr <number>` to confirm all comments are addressed."@,
        ]
    })
}

pub fn suggested_next_actions(grouped_by_type: &GroupedByType) -> (r: Vec<String>)
    ensures
        str_views(r@) == next_actions(*grouped_by_type),
{
    let mut actions: Vec<String> = Vec::new();
    if grouped_by_type.unresolved_review_comments > 0 {
        actions.push(String::from_str("Address unresolved review comments first."));
    }
    if grouped_by_type.open_issue_comments > 0 {
        actions.push(String::from_str("Reply to open issue comments on the PR conversation."));
    }
    if grouped_by_type.total == 0 {
        actions.push(
            String::from_str(
                "No open comments found; proceed with final verification and merge checks.",
            ),
        );
    } else {
        actions.push(
            String::from_str(
                "After fixes, rerun `codex process pr-comments --repo <owner/name> --pr <number>` to confirm all comments are addressed.",
            ),
        );
    }
    assert(str_views(actions@) =~= next_actions(*grouped_by_type));
    actions
}

pub open spec fn issue_action_line(issue: ProcessWatchIssue) -> Seq<char> {
    "Plan automation for issue #"@ + dec(issue.number as nat) + " ("@ + issue.url@ + ")"@
}

/// One planning line for each of the first five issues, or a note that
/// nothing matched.
pub open spec fn issue_watch_actions(issues: Seq<ProcessWatchIssue>) -> Seq<Seq<char>> {
    if issues.len() == 0 {
        seq!["No matching open issues found."@]
    } else {
        let shown = if issues.len() < 5 {
            issues.len() as int
        } else {
            5
        };
        Seq::new(shown as nat, |i: int| issue_action_line(issues[i]))
    }
}

pub fn suggest_issue_watch_actions(open_issues: &[ProcessWatchIssue]) -> (r: Vec<String>)
    ensures
        str_views(r@) == issue_watch_actions(open_issues@),
{
    let mut out: Vec<String> = Vec::new();
    if open_issues.len() == 0 {
        out.push(String::from_str("No matching open issues found."));
        assert(str_views(out@) =~= issue_watch_actions(open_issues@));
        return out;
    }
    let shown = if open_issues.len() < 5 {
        open_issues.len()
    } else {
        5
    };
    let mut i: usize = 0;
    while i < shown
        invariant
            i <= shown <= open_issues@.len(),
            shown == (if open_issues@.len() < 5 { open_issues@.len() as int } else { 5 }),
            out@.len() == i,
            forall|t: int| 0 <= t < i ==> #[trigger] out@[t]@ == issue_action_line(open_issues@[t]),
        decreases shown - i,
    {
        let issue = &open_issues[i];
        let mut l = String::from_str("Plan automation for issue #");
        push_decimal(&mut l, issue.number);
        l.append(" (");
        l.append(issue.url.as_str());
        l.append(")");
        out.push(l);
        i = i + 1;
    }
    assert(str_views(out@) =~= issue_watch_actions(open_issues@));
    out
}

} // verus!
