//! What process mode reads out of `gh` output: repository names, URLs and
//! pull-request numbers in command output, and the decoded GraphQL / REST
//! responses.

use crate::model::{OpenIssueComment, UnresolvedReviewComment};
use crate::text::{
    all_digits, chars_of, contains_vec, dec, has_sub, is_digit, is_digit_char, join, parse_u64,
    parse_u64_digits, push_decimal, split_once, split_once_vec, starts_with, starts_with_str,
    str_views, string_of, sub_vec, tokens, tokens_vec, trim_end_set, trim_end_set_vec, trim_set,
    trim_set_vec, views,
};
use vstd::prelude::*;

verus! {

// ---------------------------------------------------------------------------
// Repository names
// ---------------------------------------------------------------------------

pub open spec fn invalid_repo_message(repo: Seq<char>) -> Seq<char> {
    "Invalid --repo value `"@ + repo + "`. Expected `owner/name`."@
}

/// `owner/name` with both parts non-empty and no further `/`.
pub open spec fn repo_owner_and_name(repo: Seq<char>) -> Result<(Seq<char>, Seq<char>), Seq<char>> {
    match split_once(repo, "/"@) {
        Some((owner, name)) => if owner.len() == 0 || name.len() == 0 || name.contains('/') {
            Err(invalid_repo_message(repo))
        } else {
            Ok((owner, name))
        },
        None => Err(invalid_repo_message(repo)),
    }
}

fn invalid_repo_error(repo: &str) -> (r: String)
    ensures
        r@ == invalid_repo_message(repo@),
{
    let mut m = String::from_str("Invalid --repo value `");
    m.append(repo);
    m.append("`. Expected `owner/name`.");
    m
}

pub fn parse_repo_owner_and_name(repo: &str) -> (r: Result<(String, String), String>)
    ensures
        r matches Ok(p) ==> repo_owner_and_name(repo@) == Ok::<(Seq<char>, Seq<char>), Seq<char>>(
            (p.0@, p.1@),
        ),
        r matches Err(e) ==> repo_owner_and_name(repo@) == Err::<(Seq<char>, Seq<char>), Seq<char>>(
            e@,
        ),
{
    let chars = chars_of(repo);
    match split_once_vec(&chars, "/") {
        Some((owner, name)) => {
            if owner.len() == 0 || name.len() == 0 || crate::text::contains_char(&name, '/') {
                Err(invalid_repo_error(repo))
            } else {
                Ok((string_of(&owner), string_of(&name)))
            }
        },
        None => Err(invalid_repo_error(repo)),
    }
}

// ---------------------------------------------------------------------------
// URLs and numbers in command output
// ---------------------------------------------------------------------------

pub open spec fn is_url_token(t: Seq<char>) -> bool {
    starts_with(t, "https://"@) || starts_with(t, "http://"@)
}

/// A URL token without trailing `,`, `.`, `)` or `]`.
pub open spec fn url_trim(t: Seq<char>) -> Seq<char> {
    trim_end_set(t, ",.)]"@)
}

pub open spec fn contains_all(u: Seq<char>, needles: Seq<Seq<char>>) -> bool {
    forall|i: int| 0 <= i < needles.len() ==> has_sub(u, #[trigger] needles[i])
}

/// The first URL token (trimmed) that contains every needle.
pub open spec fn first_url_matching(toks: Seq<Seq<char>>, needles: Seq<Seq<char>>) -> Option<
    Seq<char>,
>
    decreases toks.len(),
{
    if toks.len() == 0 {
        None
    } else if is_url_token(toks[0]) && contains_all(url_trim(toks[0]), needles) {
        Some(url_trim(toks[0]))
    } else {
        first_url_matching(toks.drop_first(), needles)
    }
}

pub open spec fn first_url(text: Seq<char>) -> Option<Seq<char>> {
    first_url_matching(tokens(text), Seq::<Seq<char>>::empty())
}

fn is_url_token_exec(t: &Vec<char>) -> (b: bool)
    ensures
        b == is_url_token(t@),
{
    starts_with_str(t, "https://") || starts_with_str(t, "http://")
}

fn url_trim_exec(t: &Vec<char>) -> (r: Vec<char>)
    ensures
        r@ == url_trim(t@),
{
    let set = chars_of(",.)]");
    trim_end_set_vec(t, &set)
}

fn contains_all_exec(u: &Vec<char>, needles: &Vec<Vec<char>>) -> (b: bool)
    ensures
        b == contains_all(u@, views(needles@)),
{
    let mut i: usize = 0;
    while i < needles.len()
        invariant
            i <= needles@.len(),
            forall|t: int| 0 <= t < i ==> has_sub(u@, #[trigger] views(needles@)[t]),
        decreases needles@.len() - i,
    {
        if !contains_vec(u, &needles[i]) {
            assert(views(needles@)[i as int] == needles@[i as int]@);
            return false;
        }
        i = i + 1;
    }
    true
}

fn first_url_matching_exec(toks: &Vec<Vec<char>>, needles: &Vec<Vec<char>>) -> (r: Option<String>)
    ensures
        r matches Some(u) ==> first_url_matching(views(toks@), views(needles@)) == Some(u@),
        r is None ==> first_url_matching(views(toks@), views(needles@)) is None,
{
    let ghost all = views(toks@);
    let ghost ns = views(needles@);
    let mut i: usize = 0;
    assert(all.skip(0) =~= all);
    while i < toks.len()
        invariant
            i <= toks@.len(),
            all == views(toks@),
            ns == views(needles@),
            first_url_matching(all, ns) == first_url_matching(all.skip(i as int), ns),
        decreases toks@.len() - i,
    {
        assert(all.skip(i as int)[0] == toks@[i as int]@);
        assert(all.skip(i as int).drop_first() =~= all.skip(i + 1));
        if is_url_token_exec(&toks[i]) {
            let u = url_trim_exec(&toks[i]);
            if contains_all_exec(&u, needles) {
                return Some(string_of(&u));
            }
        }
        i = i + 1;
    }
    None
}

/// The first `http://` or `https://` token, without trailing `,.)]`.
pub fn extract_first_url(text: &str) -> (r: Option<String>)
    ensures
        r matches Some(u) ==> first_url(text@) == Some(u@),
        r is None ==> first_url(text@) is None,
{
    let chars = chars_of(text);
    let toks = tokens_vec(&chars);
    let needles: Vec<Vec<char>> = Vec::new();
    assert(views(needles@) =~= Seq::<Seq<char>>::empty());
    first_url_matching_exec(&toks, &needles)
}

/// The leading ASCII digits of `s`.
pub open spec fn leading_digits(s: Seq<char>) -> Seq<char>
    decreases s.len(),
{
    if s.len() > 0 && is_digit(s[0]) {
        seq![s[0]] + leading_digits(s.drop_first())
    } else {
        Seq::<char>::empty()
    }
}

proof fn lemma_leading_digits_all_digits(s: Seq<char>)
    ensures
        all_digits(leading_digits(s)),
        leading_digits(s).len() <= s.len(),
    decreases s.len(),
{
    if s.len() > 0 && is_digit(s[0]) {
        lemma_leading_digits_all_digits(s.drop_first());
        let rest = leading_digits(s.drop_first());
        assert forall|i: int| 0 <= i < leading_digits(s).len() implies is_digit(
            #[trigger] leading_digits(s)[i],
        ) by {
            if i > 0 {
                assert(leading_digits(s)[i] == rest[i - 1]);
            }
        }
    }
}

fn leading_digits_exec(s: &Vec<char>) -> (r: Vec<char>)
    ensures
        r@ == leading_digits(s@),
{
    let mut i: usize = 0;
    assert(s@.take(0) + s@.skip(0) =~= s@.skip(0));
    assert(s@.skip(0) =~= s@);
    while i < s.len() && is_digit_char(s[i])
        invariant
            i <= s@.len(),
            forall|t: int| 0 <= t < i ==> is_digit(s@[t]),
            leading_digits(s@) == s@.take(i as int) + leading_digits(s@.skip(i as int)),
        decreases s@.len() - i,
    {
        assert(s@.skip(i as int).drop_first() =~= s@.skip(i + 1));
        assert(s@.take(i + 1) =~= s@.take(i as int) + seq![s@[i as int]]);
        i = i + 1;
    }
    if i < s.len() {
        assert(s@.skip(i as int)[0] == s@[i as int]);
    }
    assert(leading_digits(s@.skip(i as int)) =~= Seq::<char>::empty());
    let r = sub_vec(s, 0, i);
    assert(r@ =~= leading_digits(s@));
    r
}

/// The number made of the digits that follow the first `/pull/`.
pub open spec fn pr_number_from_url(url: Seq<char>) -> Option<u64> {
    match split_once(url, "/pull/"@) {
        Some((_, suffix)) => {
            let d = leading_digits(suffix);
            if d.len() == 0 {
                None
            } else {
                parse_u64(d)
            }
        },
        None => None,
    }
}

fn pr_number_after_pull(t: &Vec<char>) -> (r: Option<u64>)
    ensures
        r == pr_number_from_url(t@),
{
    match split_once_vec(t, "/pull/") {
        Some((_, suffix)) => {
            let d = leading_digits_exec(&suffix);
            if d.len() == 0 {
                None
            } else {
                proof {
                    lemma_leading_digits_all_digits(suffix@);
                }
                parse_u64_digits(&d)
            }
        },
        None => None,
    }
}

pub fn parse_pr_number_from_url(url: &str) -> (r: Option<u64>)
    ensures
        r == pr_number_from_url(url@),
{
    let chars = chars_of(url);
    pr_number_after_pull(&chars)
}

pub open spec fn pr_number_trim_set() -> Seq<char> {
    "[](){}<>:;,.!?"@
}

/// A token of the form `#<digits>`.
pub open spec fn hash_number(t: Seq<char>) -> Option<u64> {
    if starts_with(t, "#"@) && t.len() > 1 && all_digits(t.drop_first()) {
        parse_u64(t.drop_first())
    } else {
        None
    }
}

/// The first token (trimmed of brackets and punctuation) that reads as
/// `#<digits>` or holds `/pull/<digits>`.
pub open spec fn pr_number_in_tokens(toks: Seq<Seq<char>>) -> Option<u64>
    decreases toks.len(),
{
    if toks.len() == 0 {
        None
    } else {
        let t = trim_set(toks[0], pr_number_trim_set());
        if hash_number(t) is Some {
            hash_number(t)
        } else if pr_number_from_url(t) is Some {
            pr_number_from_url(t)
        } else {
            pr_number_in_tokens(toks.drop_first())
        }
    }
}

pub open spec fn pr_number_from_text(text: Seq<char>) -> Option<u64> {
    pr_number_in_tokens(tokens(text))
}

fn all_digits_exec(s: &Vec<char>) -> (b: bool)
    ensures
        b == all_digits(s@),
{
    let mut i: usize = 0;
    while i < s.len()
        invariant
            i <= s@.len(),
            forall|t: int| 0 <= t < i ==> is_digit(s@[t]),
        decreases s@.len() - i,
    {
        if !is_digit_char(s[i]) {
            return false;
        }
        i = i + 1;
    }
    true
}

fn hash_number_exec(t: &Vec<char>) -> (r: Option<u64>)
    ensures
        r == hash_number(t@),
{
    if starts_with_str(t, "#") && t.len() > 1 {
        let n = t.len();
        let rest = sub_vec(t, 1, n);
        assert(rest@ =~= t@.drop_first());
        if all_digits_exec(&rest) {
            return parse_u64_digits(&rest);
        }
    }
    None
}

pub fn parse_pr_number_from_text(text: &str) -> (r: Option<u64>)
    ensures
        r == pr_number_from_text(text@),
{
    let chars = chars_of(text);
    let toks = tokens_vec(&chars);
    let set = chars_of("[](){}<>:;,.!?");
    let ghost all = views(toks@);
    let mut i: usize = 0;
    assert(all.skip(0) =~= all);
    while i < toks.len()
        invariant
            i <= toks@.len(),
            all == views(toks@),
            all == tokens(text@),
            set@ == pr_number_trim_set(),
            pr_number_from_text(text@) == pr_number_in_tokens(all.skip(i as int)),
        decreases toks@.len() - i,
    {
        assert(all.skip(i as int)[0] == toks@[i as int]@);
        assert(all.skip(i as int).drop_first() =~= all.skip(i + 1));
        let t = trim_set_vec(&toks[i], &set);
        let h = hash_number_exec(&t);
        if h.is_some() {
            return h;
        }
        let p = pr_number_after_pull(&t);
        if p.is_some() {
            return p;
        }
        i = i + 1;
    }
    None
}

/// What `gh pr create` printed: the pull-request URL and number.
#[derive(Debug, Default, Clone, PartialEq, Eq)]
pub struct ParsedGhPrCreateOutput {
    pub url: Option<String>,
    pub number: Option<u64>,
}

pub open spec fn pr_create_url(text: Seq<char>) -> Option<Seq<char>> {
    match first_url_matching(tokens(text), seq!["/pull/"@]) {
        Some(u) => Some(u),
        None => first_url(text),
    }
}

pub open spec fn pr_create_number(text: Seq<char>) -> Option<u64> {
    let from_url = match pr_create_url(text) {
        Some(u) => pr_number_from_url(u),
        None => None,
    };
    match from_url {
        Some(n) => Some(n),
        None => pr_number_from_text(text),
    }
}

/// The first pull-request URL (else the first URL) and the number from that
/// URL (else the first `#<n>` or `/pull/<n>` token).
pub fn parse_gh_pr_create_output(text: &str) -> (r: ParsedGhPrCreateOutput)
    ensures
        (match r.url {
            Some(u) => Some(u@),
            None => None::<Seq<char>>,
        }) == pr_create_url(text@),
        r.number == pr_create_number(text@),
{
    let chars = chars_of(text);
    let toks = tokens_vec(&chars);
    let mut needles: Vec<Vec<char>> = Vec::new();
    needles.push(chars_of("/pull/"));
    assert(views(needles@) =~= seq!["/pull/"@]);
    let url = match first_url_matching_exec(&toks, &needles) {
        Some(u) => Some(u),
        None => extract_first_url(text),
    };
    let from_url = match &url {
        Some(u) => parse_pr_number_from_url(u.as_str()),
        None => None,
    };
    let number = match from_url {
        Some(n) => Some(n),
        None => parse_pr_number_from_text(text),
    };
    ParsedGhPrCreateOutput { url, number }
}

/// What `gh issue comment` printed: the comment URL.
#[derive(Debug, Default, Clone, PartialEq, Eq)]
pub struct ParsedGhIssueCommentOutput {
    pub url: Option<String>,
}

pub open spec fn issue_comment_url(text: Seq<char>) -> Option<Seq<char>> {
    first_url_matching(tokens(text), seq!["/issues/"@, "#issuecomment-"@])
}

/// The first URL that points at an issue comment (`/issues/` and
/// `#issuecomment-`).
pub fn parse_gh_issue_comment_output(text: &str) -> (r: ParsedGhIssueCommentOutput)
    ensures
        (match r.url {
            Some(u) => Some(u@),
            None => None::<Seq<char>>,
        }) == issue_comment_url(text@),
{
    let chars = chars_of(text);
    let toks = tokens_vec(&chars);
    let mut needles: Vec<Vec<char>> = Vec::new();
    needles.push(chars_of("/issues/"));
    needles.push(chars_of("#issuecomment-"));
    assert(views(needles@) =~= seq!["/issues/"@, "#issuecomment-"@]);
    let url = first_url_matching_exec(&toks, &needles);
    ParsedGhIssueCommentOutput { url }
}

} // verus!
