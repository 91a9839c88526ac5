//! Quick-fix automation: commit messages, branch and worktree names, the
//! prompt given to the `codex exec` subprocess and the summary lines it
//! prints back.

use crate::model::{ProcessCommentTriageItem, ProcessWatchIssueCandidate};
use crate::text::{
    chars_of, dec, eq_vec, is_alnum, is_alnum_char, keep_nonempty, lines, lines_vec, lower,
    lower_char, push_chars, push_decimal, split_char, split_char_vec, starts_with, starts_with_str,
    str_views, string_of, sub_vec, to_lower_vec, trim_end_set, trim_vec, trim_ws, views,
};
use vstd::prelude::*;

verus! {

// ---------------------------------------------------------------------------
// Names
// ---------------------------------------------------------------------------

pub open spec fn commit_message_for_comment(pr: u64, comment_id: Seq<char>) -> Seq<char> {
    "process: quick fix for PR #"@ + dec(pr as nat) + " comment "@ + comment_id
}

pub fn quick_fix_commit_message(pr: u64, comment_id: &str) -> (r: String)
    ensures
        r@ == commit_message_for_comment(pr, comment_id@),
{
    let mut r = String::from_str("process: quick fix for PR #");
    push_decimal(&mut r, pr);
    r.append(" comment ");
    r.append(comment_id);
    r
}

pub open spec fn commit_message_for_issue(issue_number: u64) -> Seq<char> {
    "process: quick fix for issue #"@ + dec(issue_number as nat)
}

pub fn issue_watch_quick_fix_commit_message(issue_number: u64) -> (r: String)
    ensures
        r@ == commit_message_for_issue(issue_number),
{
    let mut r = String::from_str("process: quick fix for issue #");
    push_decimal(&mut r, issue_number);
    r
}

pub open spec fn commit_url(repo: Seq<char>, sha: Seq<char>) -> Seq<char> {
    "https://github.com/"@ + repo + "/commit/"@ + sha
}

pub fn quick_fix_commit_url(repo: &str, sha: &str) -> (r: String)
    ensures
        r@ == commit_url(repo@, sha@),
{
    let mut r = String::from_str("https://github.com/");
    r.append(repo);
    r.append("/commit/");
    r.append(sha);
    r
}

/// One scanned char of a comment id: letters and digits are kept
/// (lowercased); a run of other chars becomes one `-`, never a leading one.
pub open spec fn short_id_step(short: Seq<char>, last_was_dash: bool, ch: char) -> (
    Seq<char>,
    bool,
) {
    if is_alnum(ch) {
        (short.push(lower_char(ch)), false)
    } else if !last_was_dash && short.len() > 0 {
        (short.push('-'), true)
    } else {
        (short, last_was_dash)
    }
}

/// Scans until 24 chars have been produced.
pub open spec fn short_id_scan(cs: Seq<char>, short: Seq<char>, last_was_dash: bool) -> Seq<char>
    decreases cs.len(),
{
    if cs.len() == 0 {
        short
    } else {
        let next = short_id_step(short, last_was_dash, cs[0]);
        if next.0.len() >= 24 {
            next.0
        } else {
            short_id_scan(cs.drop_first(), next.0, next.1)
        }
    }
}

/// The comment-id part of a quick-fix branch name: the scan without
/// trailing dashes, or `comment` when nothing is left.
pub open spec fn short_comment_id(comment_id: Seq<char>) -> Seq<char> {
    let t = trim_end_set(short_id_scan(comment_id, Seq::<char>::empty(), false), "-"@);
    if t.len() == 0 {
        "comment"@
    } else {
        t
    }
}

pub open spec fn is_id_char(c: char) -> bool {
    ('a' <= c && c <= 'z') || ('0' <= c && c <= '9') || c == '-'
}

/// Chars that are safe in a branch-name component, with no leading dash and
/// no two dashes in a row.
pub open spec fn id_chars_ok(s: Seq<char>) -> bool {
    &&& forall|i: int| 0 <= i < s.len() ==> is_id_char(#[trigger] s[i])
    &&& s.len() > 0 ==> s[0] != '-'
    &&& forall|i: int| 0 <= i < s.len() - 1 ==> !(#[trigger] s[i] == '-' && s[i + 1] == '-')
}

/// A safe branch-name component: non-empty, at most 24 chars of `a-z`, `0-9`
/// and `-`, not starting or ending with `-`, never `--`.
pub open spec fn branch_id_safe(s: Seq<char>) -> bool {
    &&& id_chars_ok(s)
    &&& 0 < s.len() <= 24
    &&& s.last() != '-'
}

pub open spec fn scan_state_ok(short: Seq<char>, last_was_dash: bool) -> bool {
    &&& id_chars_ok(short)
    &&& last_was_dash <==> (short.len() > 0 && short.last() == '-')
}

proof fn lemma_lower_alnum(c: char)
    requires
        is_alnum(c),
    ensures
        is_id_char(lower_char(c)),
        lower_char(c) != '-',
{
    if 'A' <= c && c <= 'Z' {
        assert(65 <= (c as u32) <= 90);
    }
}

proof fn lemma_short_id_step_ok(short: Seq<char>, last_was_dash: bool, ch: char)
    requires
        scan_state_ok(short, last_was_dash),
    ensures
        scan_state_ok(short_id_step(short, last_was_dash, ch).0, short_id_step(short, last_was_dash, ch).1),
        short_id_step(short, last_was_dash, ch).0.len() <= short.len() + 1,
{
    let next = short_id_step(short, last_was_dash, ch);
    if is_alnum(ch) {
        lemma_lower_alnum(ch);
        assert forall|i: int| 0 <= i < next.0.len() - 1 implies !(#[trigger] next.0[i] == '-' && next.0[i + 1] == '-') by {
            if i + 1 == short.len() {
            } else {
                assert(next.0[i] == short[i]);
            }
        }
    } else if !last_was_dash && short.len() > 0 {
        assert forall|i: int| 0 <= i < next.0.len() - 1 implies !(#[trigger] next.0[i] == '-' && next.0[i + 1] == '-') by {
            if i + 1 == short.len() {
                assert(next.0[i] == short.last());
            } else {
                assert(next.0[i] == short[i]);
            }
        }
    }
}

proof fn lemma_short_id_scan_ok(cs: Seq<char>, short: Seq<char>, last_was_dash: bool)
    requires
        scan_state_ok(short, last_was_dash),
        short.len() < 24,
    ensures
        id_chars_ok(short_id_scan(cs, short, last_was_dash)),
        short_id_scan(cs, short, last_was_dash).len() <= 24,
    decreases cs.len(),
{
    if cs.len() > 0 {
        let next = short_id_step(short, last_was_dash, cs[0]);
        lemma_short_id_step_ok(short, last_was_dash, cs[0]);
        if next.0.len() < 24 {
            lemma_short_id_scan_ok(cs.drop_first(), next.0, next.1);
        }
    }
}

proof fn lemma_trim_dashes_ok(s: Seq<char>)
    requires
        id_chars_ok(s),
    ensures
        id_chars_ok(trim_end_set(s, "-"@)),
        trim_end_set(s, "-"@).len() <= s.len(),
        trim_end_set(s, "-"@).len() > 0 ==> trim_end_set(s, "-"@).last() != '-',
    decreases s.len(),
{
    reveal_strlit("-");
    if s.len() > 0 && "-"@.contains(s.last()) {
        let d = s.drop_last();
        assert forall|i: int| 0 <= i < d.len() - 1 implies !(#[trigger] d[i] == '-' && d[i + 1] == '-') by {
            assert(d[i] == s[i] && d[i + 1] == s[i + 1]);
        }
        lemma_trim_dashes_ok(d);
    } else if s.len() > 0 {
        assert(s.last() != '-') by {
            if s.last() == '-' {
                assert("-"@[0] == '-');
            }
        }
    }
}

/// The comment-id component of quick-fix branch names is always safe.
pub proof fn law_short_comment_id_is_safe(comment_id: Seq<char>)
    ensures
        branch_id_safe(short_comment_id(comment_id)),
{
    lemma_short_id_scan_ok(comment_id, Seq::<char>::empty(), false);
    let scanned = short_id_scan(comment_id, Seq::<char>::empty(), false);
    lemma_trim_dashes_ok(scanned);
    reveal_strlit("comment");
}

pub fn short_comment_id_for_branch(comment_id: &str) -> (r: String)
    ensures
        r@ == short_comment_id(comment_id@),
        branch_id_safe(r@),
{
    let cs = chars_of(comment_id);
    let mut short: Vec<char> = Vec::new();
    let mut last_was_dash = false;
    let mut i: usize = 0;
    let ghost target = short_id_scan(cs@, Seq::<char>::empty(), false);
    assert(cs@.skip(0) =~= cs@);
    let mut done = false;
    while i < cs.len() && !done
        invariant
            i <= cs@.len(),
            !done ==> target == short_id_scan(cs@.skip(i as int), short@, last_was_dash),
            !done ==> short@.len() < 24,
            done ==> target == short@,
        decreases cs@.len() - i,
    {
        let ch = cs[i];
        assert(cs@.skip(i as int)[0] == ch);
        assert(cs@.skip(i as int).drop_first() =~= cs@.skip(i + 1));
        if is_alnum_char(ch) {
            short.push(crate::text::std_to_ascii_lowercase(ch));
            last_was_dash = false;
        } else if !last_was_dash && short.len() > 0 {
            short.push('-');
            last_was_dash = true;
        }
        if short.len() >= 24 {
            done = true;
        }
        i = i + 1;
    }
    let dash = chars_of("-");
    let trimmed = crate::text::trim_end_set_vec(&short, &dash);
    proof {
        law_short_comment_id_is_safe(comment_id@);
    }
    if trimmed.len() == 0 {
        return String::from_str("comment");
    }
    string_of(&trimmed)
}

pub open spec fn review_branch_name(pr: u64, comment_id: Seq<char>) -> Seq<char> {
    "process/quick-fix-pr-"@ + dec(pr as nat) + "-"@ + short_comment_id(comment_id)
}

pub fn quick_fix_branch_name(pr: u64, comment_id: &str) -> (r: String)
    ensures
        r@ == review_branch_name(pr, comment_id@),
{
    let short = short_comment_id_for_branch(comment_id);
    let mut r = String::from_str("process/quick-fix-pr-");
    push_decimal(&mut r, pr);
    r.append("-");
    r.append(short.as_str());
    r
}

/// The last eight chars of the run id (all of it when shorter).
pub open spec fn run_id_suffix(run_id: Seq<char>) -> Seq<char> {
    run_id.skip(if run_id.len() > 8 { run_id.len() - 8 } else { 0 })
}

pub open spec fn issue_branch_name(issue_number: u64, run_id: Seq<char>) -> Seq<char> {
    "process/quick-fix-issue-"@ + dec(issue_number as nat) + "-"@ + run_id_suffix(run_id)
}

pub fn issue_watch_quick_fix_branch_name(issue_number: u64, run_id: &str) -> (r: String)
    ensures
        r@ == issue_branch_name(issue_number, run_id@),
{
    let cs = chars_of(run_id);
    let n = cs.len();
    let from = if n > 8 {
        n - 8
    } else {
        0
    };
    let suffix = sub_vec(&cs, from, n);
    assert(suffix@ =~= run_id_suffix(run_id@));
    let mut r = String::from_str("process/quick-fix-issue-");
    push_decimal(&mut r, issue_number);
    r.append("-");
    push_chars(&mut r, &suffix);
    r
}

/// Every `/` replaced by `__`.
pub open spec fn worktree_dir_name(branch: Seq<char>) -> Seq<char>
    decreases branch.len(),
{
    if branch.len() == 0 {
        Seq::<char>::empty()
    } else if branch.last() == '/' {
        worktree_dir_name(branch.drop_last()) + "__"@
    } else {
        worktree_dir_name(branch.drop_last()).push(branch.last())
    }
}

pub fn quick_fix_worktree_dir_name(branch_name: &str) -> (r: String)
    ensures
        r@ == worktree_dir_name(branch_name@),
{
    let cs = chars_of(branch_name);
    let mut r = String::new();
    let mut i: usize = 0;
    assert(cs@.take(0) =~= Seq::<char>::empty());
    while i < cs.len()
        invariant
            i <= cs@.len(),
            r@ == worktree_dir_name(cs@.take(i as int)),
        decreases cs@.len() - i,
    {
        assert(cs@.take(i + 1).drop_last() =~= cs@.take(i as int));
        if cs[i] == '/' {
            r.append("__");
        } else {
            crate::text::push_char(&mut r, cs[i]);
        }
        i = i + 1;
    }
    assert(cs@.take(cs@.len() as int) =~= cs@);
    r
}

// ---------------------------------------------------------------------------
// Prompts
// ---------------------------------------------------------------------------

/// The trimmed body, cut at 2000 chars.
pub open spec fn bounded_body(body: Seq<char>) -> Seq<char> {
    let t = trim_ws(body);
    t.take(if t.len() < 2000 { t.len() as int } else { 2000 })
}

fn bounded_body_exec(body: &str) -> (r: Vec<char>)
    ensures
        r@ == bounded_body(body@),
{
    let t = trim_vec(&chars_of(body));
    let n = t.len();
    let keep = if n < 2000 {
        n
    } else {
        2000
    };
    let r = sub_vec(&t, 0, keep);
    assert(r@ =~= bounded_body(body@));
    r
}

pub open spec fn review_prompt(repo: Seq<char>, pr: u64, comment_url: Seq<char>, body: Seq<char>) -> Seq<
    char,
> {
    "You are applying a minimal targeted fix in this repository.\n\nRepository: "@ + repo
        + "\nPR number: "@ + dec(pr as nat) + "\nComment URL: "@ + comment_url
        + "\nComment body:\n"@ + bounded_body(body)
        + "\n\nRequirements:\n- Apply the smallest safe change that addresses the comment.\n- Keep scope tight to this comment only.\n- If verification is quick, run only focused checks.\n- Return exactly these lines at the end:\nSUMMARY: <one-line summary>\nFILES: <comma-separated file paths or none>\nVERIFICATION: <short status or none>"@
}

pub fn build_quick_fix_prompt(repo: &str, pr: u64, item: &ProcessCommentTriageItem) -> (r: String)
    ensures
        r@ == review_prompt(repo@, pr, item.comment_url@, item.body@),
{
    let body = bounded_body_exec(item.body.as_str());
    let mut r = String::from_str(
        "You are applying a minimal targeted fix in this repository.\n\nRepository: ",
    );
    r.append(repo);
    r.append("\nPR number: ");
    push_decimal(&mut r, pr);
    r.append("\nComment URL: ");
    r.append(item.comment_url.as_str());
    r.append("\nComment body:\n");
    push_chars(&mut r, &body);
    r.append(
        "\n\nRequirements:\n- Apply the smallest safe change that addresses the comment.\n- Keep scope tight to this comment only.\n- If verification is quick, run only focused checks.\n- Return exactly these lines at the end:\nSUMMARY: <one-line summary>\nFILES: <comma-separated file paths or none>\nVERIFICATION: <short status or none>",
    );
    r
}

pub open spec fn issue_prompt(number: u64, url: Seq<char>, title: Seq<char>, body: Seq<char>) -> Seq<
    char,
> {
    "You are applying a minimal targeted fix in this repository.\n\nIssue number: "@ + dec(
        number as nat,
    ) + "\nIssue URL: "@ + url + "\nIssue title: "@ + title + "\nIssue body:\n"@ + bounded_body(
        body,
    )
        + "\n\nRequirements:\n- Apply the smallest safe change that resolves this issue.\n- Keep scope tight to this issue only.\n- If verification is quick, run only focused checks.\n- Return exactly these lines at the end:\nSUMMARY: <one-line summary>\nFILES: <comma-separated file paths or none>\nVERIFICATION: <short status or none>"@
}

pub fn build_issue_watch_quick_fix_prompt(issue: &ProcessWatchIssueCandidate) -> (r: String)
    ensures
        r@ == issue_prompt(issue.number, issue.url@, issue.title@, issue.body@),
{
    let body = bounded_body_exec(issue.body.as_str());
    let mut r = String::from_str(
        "You are applying a minimal targeted fix in this repository.\n\nIssue number: ",
    );
    push_decimal(&mut r, issue.number);
    r.append("\nIssue URL: ");
    r.append(issue.url.as_str());
    r.append("\nIssue title: ");
    r.append(issue.title.as_str());
    r.append("\nIssue body:\n");
    push_chars(&mut r, &body);
    r.append(
        "\n\nRequirements:\n- Apply the smallest safe change that resolves this issue.\n- Keep scope tight to this issue only.\n- If verification is quick, run only focused checks.\n- Return exactly these lines at the end:\nSUMMARY: <one-line summary>\nFILES: <comma-separated file paths or none>\nVERIFICATION: <short status or none>",
    );
    r
}

// ---------------------------------------------------------------------------
// The subprocess's report
// ---------------------------------------------------------------------------

/// The `SUMMARY:` / `FILES:` / `VERIFICATION:` lines of a quick-fix run.
#[derive(Debug, Default, Clone, PartialEq, Eq)]
pub struct ParsedQuickFixOutput {
    pub summary: Option<String>,
    pub files: Vec<String>,
    pub verification: Option<String>,
}

pub type QuickFixReport = (Option<Seq<char>>, Seq<Seq<char>>, Option<Seq<char>>);

pub open spec fn is_none_word(v: Seq<char>) -> bool {
    lower(v) == "none"@
}

/// The comma-separated entries, trimmed, without empty ones.
pub open spec fn file_list(v: Seq<char>) -> Seq<Seq<char>> {
    keep_nonempty(split_char(v, ',').map_values(|p: Seq<char>| trim_ws(p)))
}

/// What one output line changes in the report; a later line overrides an
/// earlier one.
pub open spec fn report_line(acc: QuickFixReport, line: Seq<char>) -> QuickFixReport {
    let t = trim_ws(line);
    if starts_with(t, "SUMMARY:"@) {
        let v = trim_ws(t.skip("SUMMARY:"@.len() as int));
        if v.len() > 0 {
            (Some(v), acc.1, acc.2)
        } else {
            acc
        }
    } else if starts_with(t, "FILES:"@) {
        let v = trim_ws(t.skip("FILES:"@.len() as int));
        if !is_none_word(v) && v.len() > 0 {
            (acc.0, file_list(v), acc.2)
        } else {
            acc
        }
    } else if starts_with(t, "VERIFICATION:"@) {
        let v = trim_ws(t.skip("VERIFICATION:"@.len() as int));
        if !is_none_word(v) && v.len() > 0 {
            (acc.0, acc.1, Some(v))
        } else {
            acc
        }
    } else {
        acc
    }
}

pub open spec fn report_of_lines(ls: Seq<Seq<char>>) -> QuickFixReport
    decreases ls.len(),
{
    if ls.len() == 0 {
        (None, Seq::<Seq<char>>::empty(), None)
    } else {
        report_line(report_of_lines(ls.drop_last()), ls.last())
    }
}

pub open spec fn quick_fix_report(output: Seq<char>) -> QuickFixReport {
    report_of_lines(lines(output))
}

fn is_none_word_exec(v: &Vec<char>) -> (b: bool)
    ensures
        b == is_none_word(v@),
{
    let l = to_lower_vec(v);
    let none = chars_of("none");
    eq_vec(&l, &none)
}

fn file_list_exec(v: &Vec<char>) -> (r: Vec<String>)
    ensures
        str_views(r@) == file_list(v@),
{
    let parts = split_char_vec(v, ',');
    let ghost trimmed = split_char(v@, ',').map_values(|p: Seq<char>| trim_ws(p));
    let mut r: Vec<String> = Vec::new();
    let mut i: usize = 0;
    assert(trimmed.take(0) =~= Seq::<Seq<char>>::empty());
    assert(str_views(r@) =~= Seq::<Seq<char>>::empty());
    while i < parts.len()
        invariant
            i <= parts@.len(),
            views(parts@) == split_char(v@, ','),
            trimmed == split_char(v@, ',').map_values(|p: Seq<char>| trim_ws(p)),
            trimmed.len() == parts@.len(),
            str_views(r@) == keep_nonempty(trimmed.take(i as int)),
        decreases parts@.len() - i,
    {
        assert(views(parts@)[i as int] == parts@[i as int]@);
        let t = trim_vec(&parts[i]);
        assert(trimmed.take(i + 1).drop_last() =~= trimmed.take(i as int));
        assert(trimmed.take(i + 1).last() == t@);
        if t.len() > 0 {
            r.push(string_of(&t));
        }
        assert(str_views(r@) =~= keep_nonempty(trimmed.take(i + 1)));
        i = i + 1;
    }
    assert(trimmed.take(parts@.len() as int) =~= trimmed);
    r
}

pub open spec fn parsed_report(p: ParsedQuickFixOutput) -> QuickFixReport {
    (
        match p.summary {
            Some(s) => Some(s@),
            None => None,
        },
        str_views(p.files@),
        match p.verification {
            Some(s) => Some(s@),
            None => None,
        },
    )
}

fn tail_after(t: &Vec<char>, prefix: &str) -> (r: Vec<char>)
    requires
        starts_with(t@, prefix@),
    ensures
        r@ == trim_ws(t@.skip(prefix@.len() as int)),
{
    let p = chars_of(prefix);
    let n = t.len();
    let rest = sub_vec(t, p.len(), n);
    assert(rest@ =~= t@.skip(prefix@.len() as int));
    trim_vec(&rest)
}

/// The last non-empty `SUMMARY:`, `FILES:` and `VERIFICATION:` values; a
/// value of `none` (any case) is ignored.
pub fn parse_quick_fix_output(output: &str) -> (r: ParsedQuickFixOutput)
    ensures
        parsed_report(r) == quick_fix_report(output@),
{
    let cs = chars_of(output);
    let ls = lines_vec(&cs);
    let ghost all = views(ls@);
    let mut parsed = ParsedQuickFixOutput { summary: None, files: Vec::new(), verification: None };
    let mut i: usize = 0;
    assert(all.take(0) =~= Seq::<Seq<char>>::empty());
    assert(parsed_report(parsed) =~= report_of_lines(all.take(0)));
    while i < ls.len()
        invariant
            i <= ls@.len(),
            all == views(ls@),
            all == lines(output@),
            parsed_report(parsed) == report_of_lines(all.take(i as int)),
        decreases ls@.len() - i,
    {
        assert(all.take(i + 1).drop_last() =~= all.take(i as int));
        assert(all.take(i + 1).last() == ls@[i as int]@);
        let t = trim_vec(&ls[i]);
        if starts_with_str(&t, "SUMMARY:") {
            let v = tail_after(&t, "SUMMARY:");
            if v.len() > 0 {
                parsed.summary = Some(string_of(&v));
            }
        } else if starts_with_str(&t, "FILES:") {
            let v = tail_after(&t, "FILES:");
            if !is_none_word_exec(&v) && v.len() > 0 {
                parsed.files = file_list_exec(&v);
            }
        } else if starts_with_str(&t, "VERIFICATION:") {
            let v = tail_after(&t, "VERIFICATION:");
            if !is_none_word_exec(&v) && v.len() > 0 {
                parsed.verification = Some(string_of(&v));
            }
        }
        assert(parsed_report(parsed) =~= report_of_lines(all.take(i + 1)));
        i = i + 1;
    }
    assert(all.take(ls@.len() as int) =~= all);
    parsed
}

/// The first line with something besides whitespace, trimmed.
pub open spec fn first_nonblank(ls: Seq<Seq<char>>) -> Option<Seq<char>>
    decreases ls.len(),
{
    if ls.len() == 0 {
        None
    } else if trim_ws(ls[0]).len() > 0 {
        Some(trim_ws(ls[0]))
    } else {
        first_nonblank(ls.drop_first())
    }
}

pub open spec fn first_nonblank_line(text: Seq<char>) -> Option<Seq<char>> {
    first_nonblank(lines(text))
}

pub fn first_non_empty_line(text: &str) -> (r: Option<String>)
    ensures
        r matches Some(l) ==> first_nonblank_line(text@) == Some(l@),
        r is None ==> first_nonblank_line(text@) is None,
{
    let cs = chars_of(text);
    let ls = lines_vec(&cs);
    let ghost all = views(ls@);
    let mut i: usize = 0;
    assert(all.skip(0) =~= all);
    while i < ls.len()
        invariant
            i <= ls@.len(),
            all == views(ls@),
            all == lines(text@),
            first_nonblank(all) == first_nonblank(all.skip(i as int)),
        decreases ls@.len() - i,
    {
        assert(all.skip(i as int)[0] == ls@[i as int]@);
        assert(all.skip(i as int).drop_first() =~= all.skip(i + 1));
        let t = trim_vec(&ls[i]);
        if t.len() > 0 {
            return Some(string_of(&t));
        }
        i = i + 1;
    }
    None
}

} // verus!
