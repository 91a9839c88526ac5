//! The GitHub CLI requests of process mode: the arguments of each `gh`
//! invocation, what its reply means, and the exchanges that fetch data.
//!
//! An exchange is driven by its caller: called without a reply it names the
//! `gh` invocation to run; called with the parsed reply it gives the result.

use crate::github::{
    extract_first_url, first_url, parse_gh_pr_create_output, pr_create_number, pr_create_url,
};
use crate::model::{OpenIssueComment, ProcessWatchIssueCandidate, UnresolvedReviewComment};
use crate::process_io::result_view;
use crate::responses::{
    comment_record, graphql_errors_message, issue_comment_nodes, issue_comment_record,
    missing_threads_message, missing_thread_data_message, parse_issue_comments,
    parse_resolve_review_thread_response, parse_unresolved_review_comment_page, reported_errors,
    resolved_thread, review_threads, unresolved_comment_sources, unresolved_thread_message,
    GhGraphQlResponse, GhIssueCommentsResponse, GhResolveReviewThreadResponse,
};
use crate::text::{
    chars_of, dec, lines, lines_vec, push_decimal, str_views, string_of, sub_vec, trim_vec,
    trim_ws,
};
use vstd::prelude::*;

verus! {

// ---------------------------------------------------------------------------
// Replies
// ---------------------------------------------------------------------------

#[derive(Debug, Clone, PartialEq, Eq)]
pub struct GhIssueLabel {
    pub name: String,
}

/// One entry of `gh issue list --json number,title,body,url,labels`.
#[derive(Debug, Clone, PartialEq, Eq)]
pub struct GhIssueListItem {
    pub number: u64,
    pub title: String,
    pub body: Option<String>,
    pub url: String,
    pub labels: Vec<GhIssueLabel>,
}

/// `gh pr view --json baseRefName`.
#[derive(Debug, Clone, PartialEq, Eq)]
pub struct GhPrBaseRefResponse {
    pub base_ref_name: String,
}

#[derive(Debug, Clone, PartialEq, Eq)]
pub struct GhRepoDefaultBranchRef {
    pub name: String,
}

/// `gh repo view --json defaultBranchRef`.
#[derive(Debug, Clone, PartialEq, Eq)]
pub struct GhRepoViewResponse {
    pub default_branch_ref: Option<GhRepoDefaultBranchRef>,
}

/// One step of an exchange with `gh`.
#[derive(Debug, Clone, PartialEq, Eq)]
pub enum GhExchange<T> {
    /// Run `gh` with these arguments and call back with the reply.
    Run(Vec<String>),
    /// The exchange is over.
    Finished(T),
}

fn cat(a: &str, b: &str) -> (r: String)
    ensures
        r@ == a@ + b@,
{
    let mut r = a.to_owned();
    r.append(b);
    r
}

fn cat_decimal(a: &str, n: u64) -> (r: String)
    ensures
        r@ == a@ + dec(n as nat),
{
    let mut r = a.to_owned();
    push_decimal(&mut r, n);
    r
}

// ---------------------------------------------------------------------------
// Review threads
// ---------------------------------------------------------------------------

pub open spec fn review_threads_query_text() -> Seq<char> {
    "query($owner: String!, $name: String!, $pr: Int!, $cursor: String) {\n  repository(owner: $owner, name: $name) {\n    pullRequest(number: $pr) {\n      reviewThreads(first: 100, after: $cursor) {\n        nodes {\n          id\n          isResolved\n          comments(first: 100) {\n            nodes {\n              id\n              author { login }\n              path\n              line\n              body\n              url\n            }\n          }\n        }\n        pageInfo {\n          hasNextPage\n          endCursor\n        }\n      }\n    }\n  }\n}"@
}

/// The GraphQL query for one page of review threads with their comments.
pub fn review_threads_query() -> (r: &'static str)
    ensures
        r@ == review_threads_query_text(),
{
    "query($owner: String!, $name: String!, $pr: Int!, $cursor: String) {\n  repository(owner: $owner, name: $name) {\n    pullRequest(number: $pr) {\n      reviewThreads(first: 100, after: $cursor) {\n        nodes {\n          id\n          isResolved\n          comments(first: 100) {\n            nodes {\n              id\n              author { login }\n              path\n              line\n              body\n              url\n            }\n          }\n        }\n        pageInfo {\n          hasNextPage\n          endCursor\n        }\n      }\n    }\n  }\n}"
}

pub open spec fn review_threads_args(
    owner: Seq<char>,
    name: Seq<char>,
    pr: u64,
    cursor: Option<Seq<char>>,
) -> Seq<Seq<char>> {
    seq![
        "api"@,
        "graphql"@,
        "-f"@,
        "query="@ + review_threads_query_text(),
        "-F"@,
        "owner="@ + owner,
        "-F"@,
        "name="@ + name,
        "-F"@,
        "pr="@ + dec(pr as nat),
    ] + match cursor {
        Some(c) => seq!["-F"@, "cursor="@ + c],
        None => Seq::<Seq<char>>::empty(),
    }
}

/// `gh api graphql` for one page of review threads, after `cursor` when
/// given.
pub fn unresolved_review_comments_args(owner: &str, name: &str, pr: u64, cursor: Option<&str>) -> (r:
    Vec<String>)
    ensures
        str_views(r@) == review_threads_args(
            owner@,
            name@,
            pr,
            match cursor {
                Some(c) => Some(c@),
                None => None,
            },
        ),
{
    let mut r = vec![
        String::from_str("api"),
        String::from_str("graphql"),
        String::from_str("-f"),
        cat("query=", review_threads_query()),
        String::from_str("-F"),
        cat("owner=", owner),
        String::from_str("-F"),
        cat("name=", name),
        String::from_str("-F"),
        cat_decimal("pr=", pr),
    ];
    if let Some(c) = cursor {
        r.push(String::from_str("-F"));
        r.push(cat("cursor=", c));
    }
    assert(str_views(r@) =~= review_threads_args(
        owner@,
        name@,
        pr,
        match cursor {
            Some(c) => Some(c@),
            None => None,
        },
    ));
    r
}

/// Where fetching the unresolved review comments of a pull request stands.
#[derive(Debug, Clone, PartialEq, Eq)]
pub struct ReviewCommentsFetch {
    pub owner: String,
    pub name: String,
    pub pr: u64,
    /// The comments of the pages read so far, in order.
    pub comments: Vec<UnresolvedReviewComment>,
    /// The cursor of the next page.
    pub cursor: Option<String>,
}

/// What to do next while fetching review comments.
#[derive(Debug, Clone, PartialEq, Eq)]
pub enum ReviewCommentsStep {
    /// Run `gh` with these arguments and call back with the parsed reply.
    Request(Vec<String>),
    /// Every page was read; the comments are in the fetch.
    Done,
    /// The fetch failed with this error.
    Failed(String),
}

pub open spec fn opt_string_view(o: Option<String>) -> Option<Seq<char>> {
    match o {
        Some(s) => Some(s@),
        None => None,
    }
}

pub open spec fn pagination_without_cursor_message() -> Seq<char> {
    "GitHub API returned pagination without a cursor for unresolved review comments."@
}

/// `added` holds, in order, the comments of the unresolved threads of a page.
pub open spec fn page_comments(added: Seq<UnresolvedReviewComment>, threads: Seq<crate::responses::GhReviewThreadNode>) -> bool {
    &&& added.len() == unresolved_comment_sources(threads).len()
    &&& forall|i: int|
        0 <= i < added.len() ==> comment_record(
            #[trigger] added[i],
            unresolved_comment_sources(threads)[i].0,
            unresolved_comment_sources(threads)[i].1,
        )
}

/// Asks for the next page (`reply` is `None`), or takes the reply to the
/// last request: its comments are appended; the fetch is done when no page
/// follows, and asks for the next one by its cursor otherwise. Errors in the
/// reply, a reply without review threads and a next page without a cursor
/// fail the fetch.
pub fn fetch_unresolved_review_comments(
    fetch: &mut ReviewCommentsFetch,
    reply: Option<GhGraphQlResponse>,
) -> (r: ReviewCommentsStep)
    ensures
        final(fetch).owner == old(fetch).owner,
        final(fetch).name == old(fetch).name,
        final(fetch).pr == old(fetch).pr,
        match reply {
            None => {
                &&& final(fetch).comments == old(fetch).comments
                &&& final(fetch).cursor == old(fetch).cursor
                &&& r matches ReviewCommentsStep::Request(a) && str_views(a@) == review_threads_args(
                    old(fetch).owner@,
                    old(fetch).name@,
                    old(fetch).pr,
                    opt_string_view(old(fetch).cursor),
                )
            },
            Some(resp) => match reported_errors(resp.errors) {
                Some(errs) => r matches ReviewCommentsStep::Failed(e) && e@
                    == graphql_errors_message(errs),
                None => match review_threads(resp) {
                    None => r matches ReviewCommentsStep::Failed(e) && e@
                        == missing_threads_message(),
                    Some(conn) => {
                        &&& final(fetch).comments@.len() >= old(fetch).comments@.len()
                        &&& final(fetch).comments@.take(old(fetch).comments@.len() as int)
                            == old(fetch).comments@
                        &&& page_comments(
                            final(fetch).comments@.skip(old(fetch).comments@.len() as int),
                            conn.nodes@,
                        )
                        &&& if !conn.page_info.has_next_page {
                            r is Done
                        } else {
                            match conn.page_info.end_cursor {
                                None => r matches ReviewCommentsStep::Failed(e) && e@
                                    == pagination_without_cursor_message(),
                                Some(c) => {
                                    &&& final(fetch).cursor == Some(c)
                                    &&& r matches ReviewCommentsStep::Request(a) && str_views(a@)
                                        == review_threads_args(
                                        old(fetch).owner@,
                                        old(fetch).name@,
                                        old(fetch).pr,
                                        Some(c@),
                                    )
                                },
                            }
                        }
                    },
                },
            },
        },
{
    let resp = match reply {
        None => {
            let args = match &fetch.cursor {
                Some(c) => unresolved_review_comments_args(
                    fetch.owner.as_str(),
                    fetch.name.as_str(),
                    fetch.pr,
                    Some(c.as_str()),
                ),
                None => unresolved_review_comments_args(
                    fetch.owner.as_str(),
                    fetch.name.as_str(),
                    fetch.pr,
                    None,
                ),
            };
            return ReviewCommentsStep::Request(args);
        },
        Some(resp) => resp,
    };
    let ghost conn = review_threads(resp);
    let page = match parse_unresolved_review_comment_page(resp) {
        Err(e) => {
            return ReviewCommentsStep::Failed(e);
        },
        Ok(page) => page,
    };
    let ghost start = fetch.comments@;
    let mut added = page.comments;
    fetch.comments.append(&mut added);
    assert(fetch.comments@.take(start.len() as int) =~= start);
    assert(fetch.comments@.skip(start.len() as int) =~= page.comments@);
    if !page.has_next_page {
        return ReviewCommentsStep::Done;
    }
    match page.end_cursor {
        None => ReviewCommentsStep::Failed(
            String::from_str(
                "GitHub API returned pagination without a cursor for unresolved review comments.",
            ),
        ),
        Some(c) => {
            let args = unresolved_review_comments_args(
                fetch.owner.as_str(),
                fetch.name.as_str(),
                fetch.pr,
                Some(c.as_str()),
            );
            fetch.cursor = Some(c);
            ReviewCommentsStep::Request(args)
        },
    }
}

// ---------------------------------------------------------------------------
// Conversation comments
// ---------------------------------------------------------------------------

pub open spec fn issue_comments_args(repo: Seq<char>, pr: u64) -> Seq<Seq<char>> {
    seq![
        "api"@,
        "repos/"@ + repo + "/issues/"@ + dec(pr as nat) + "/comments"@,
        "--paginate"@,
        "--slurp"@,
    ]
}

pub fn issue_comments_request(repo: &str, pr: u64) -> (r: Vec<String>)
    ensures
        str_views(r@) == issue_comments_args(repo@, pr),
{
    let mut path = cat("repos/", repo);
    path.append("/issues/");
    push_decimal(&mut path, pr);
    path.append("/comments");
    let r = vec![
        String::from_str("api"),
        path,
        String::from_str("--paginate"),
        String::from_str("--slurp"),
    ];
    assert(str_views(r@) =~= issue_comments_args(repo@, pr));
    r
}

/// The conversation comments of a pull request, every page of them.
pub fn fetch_issue_comments(repo: &str, pr: u64, reply: Option<GhIssueCommentsResponse>) -> (r:
    GhExchange<Vec<OpenIssueComment>>)
    ensures
        match reply {
            None => r matches GhExchange::Run(a) && str_views(a@) == issue_comments_args(repo@, pr),
            Some(resp) => r matches GhExchange::Finished(v) && v@.len() == issue_comment_nodes(
                resp,
            ).len() && forall|i: int|
                0 <= i < v@.len() ==> issue_comment_record(
                    #[trigger] v@[i],
                    issue_comment_nodes(resp)[i],
                ),
        },
{
    match reply {
        None => GhExchange::Run(issue_comments_request(repo, pr)),
        Some(resp) => GhExchange::Finished(parse_issue_comments(resp)),
    }
}

// ---------------------------------------------------------------------------
// Issues by label
// ---------------------------------------------------------------------------

pub open spec fn open_issues_args(repo: Seq<char>, label: Seq<char>, limit: u32) -> Seq<Seq<char>> {
    seq![
        "issue"@,
        "list"@,
        "--repo"@,
        repo,
        "--state"@,
        "open"@,
        "--label"@,
        label,
        "--limit"@,
        dec(limit as nat),
        "--json"@,
        "number,title,body,url,labels"@,
    ]
}

pub fn open_issues_request(repo: &str, label: &str, limit: u32) -> (r: Vec<String>)
    ensures
        str_views(r@) == open_issues_args(repo@, label@, limit),
{
    let r = vec![
        String::from_str("issue"),
        String::from_str("list"),
        String::from_str("--repo"),
        repo.to_owned(),
        String::from_str("--state"),
        String::from_str("open"),
        String::from_str("--label"),
        label.to_owned(),
        String::from_str("--limit"),
        crate::text::u64_to_string(limit as u64),
        String::from_str("--json"),
        String::from_str("number,title,body,url,labels"),
    ];
    assert(str_views(r@) =~= open_issues_args(repo@, label@, limit));
    r
}

pub open spec fn label_names(labels: Seq<GhIssueLabel>) -> Seq<Seq<char>> {
    Seq::new(labels.len(), |i: int| labels[i].name@)
}

/// `c` is the candidate made of `item`: a missing body reads as empty.
pub open spec fn candidate_of(c: ProcessWatchIssueCandidate, item: GhIssueListItem) -> bool {
    &&& c.number == item.number
    &&& c.title == item.title
    &&& c.body@ == (match item.body {
        Some(b) => b@,
        None => Seq::<char>::empty(),
    })
    &&& c.url == item.url
    &&& str_views(c.labels@) == label_names(item.labels@)
}

fn candidate(item: &GhIssueListItem) -> (c: ProcessWatchIssueCandidate)
    ensures
        candidate_of(c, *item),
{
    let mut labels: Vec<String> = Vec::new();
    let mut i: usize = 0;
    while i < item.labels.len()
        invariant
            i <= item.labels@.len(),
            str_views(labels@) == label_names(item.labels@.take(i as int)),
        decreases item.labels@.len() - i,
    {
        let ghost before = str_views(labels@);
        labels.push(item.labels[i].name.clone());
        assert(str_views(labels@) =~= before.push(item.labels@[i as int].name@));
        assert(label_names(item.labels@.take(i + 1)) =~= label_names(item.labels@.take(i as int)).push(
            item.labels@[i as int].name@,
        ));
        i = i + 1;
    }
    assert(item.labels@.take(item.labels@.len() as int) =~= item.labels@);
    let body = match &item.body {
        Some(b) => b.clone(),
        None => String::new(),
    };
    ProcessWatchIssueCandidate {
        number: item.number,
        title: item.title.clone(),
        body,
        url: item.url.clone(),
        labels,
    }
}

pub fn issue_candidates(items: &Vec<GhIssueListItem>) -> (r: Vec<ProcessWatchIssueCandidate>)
    ensures
        r@.len() == items@.len(),
        forall|i: int| 0 <= i < r@.len() ==> candidate_of(#[trigger] r@[i], items@[i]),
{
    let mut r: Vec<ProcessWatchIssueCandidate> = Vec::new();
    let mut i: usize = 0;
    while i < items.len()
        invariant
            i <= items@.len(),
            r@.len() == i,
            forall|k: int| 0 <= k < i ==> candidate_of(#[trigger] r@[k], items@[k]),
        decreases items@.len() - i,
    {
        r.push(candidate(&items[i]));
        i = i + 1;
    }
    r
}

/// The open issues of `repo` that carry `label`, at most `limit` of them.
pub fn fetch_open_issues_by_label(
    repo: &str,
    label: &str,
    limit: u32,
    reply: Option<Vec<GhIssueListItem>>,
) -> (r: GhExchange<Vec<ProcessWatchIssueCandidate>>)
    ensures
        match reply {
            None => r matches GhExchange::Run(a) && str_views(a@) == open_issues_args(
                repo@,
                label@,
                limit,
            ),
            Some(items) => r matches GhExchange::Finished(v) && v@.len() == items@.len() && forall|
                i: int,
            |
                0 <= i < v@.len() ==> candidate_of(#[trigger] v@[i], items@[i]),
        },
{
    match reply {
        None => GhExchange::Run(open_issues_request(repo, label, limit)),
        Some(items) => GhExchange::Finished(issue_candidates(&items)),
    }
}

// ---------------------------------------------------------------------------
// Branches
// ---------------------------------------------------------------------------

pub open spec fn repo_default_branch_args(repo: Seq<char>) -> Seq<Seq<char>> {
    seq!["repo"@, "view"@, repo, "--json"@, "defaultBranchRef"@]
}

/// The default branch name, trimmed; a blank one counts as none.
pub open spec fn default_branch(resp: GhRepoViewResponse) -> Option<Seq<char>> {
    match resp.default_branch_ref {
        Some(b) => if trim_ws(b.name@).len() > 0 {
            Some(trim_ws(b.name@))
        } else {
            None
        },
        None => None,
    }
}

pub fn fetch_repo_default_branch_name(repo: &str, reply: Option<GhRepoViewResponse>) -> (r:
    GhExchange<Option<String>>)
    ensures
        match reply {
            None => r matches GhExchange::Run(a) && str_views(a@) == repo_default_branch_args(
                repo@,
            ),
            Some(resp) => r matches GhExchange::Finished(b) && opt_string_view(b) == default_branch(
                resp,
            ),
        },
{
    match reply {
        None => {
            let r = vec![
                String::from_str("repo"),
                String::from_str("view"),
                repo.to_owned(),
                String::from_str("--json"),
                String::from_str("defaultBranchRef"),
            ];
            assert(str_views(r@) =~= repo_default_branch_args(repo@));
            GhExchange::Run(r)
        },
        Some(resp) => match resp.default_branch_ref {
            Some(b) => {
                let t = trim_vec(&chars_of(b.name.as_str()));
                if t.len() > 0 {
                    GhExchange::Finished(Some(string_of(&t)))
                } else {
                    GhExchange::Finished(None)
                }
            },
            None => GhExchange::Finished(None),
        },
    }
}

pub open spec fn pr_base_branch_args(repo: Seq<char>, pr: u64) -> Seq<Seq<char>> {
    seq!["pr"@, "view"@, "--repo"@, repo, dec(pr as nat), "--json"@, "baseRefName"@]
}

/// The base branch name as given; a blank one counts as none.
pub open spec fn base_branch(resp: GhPrBaseRefResponse) -> Option<Seq<char>> {
    if trim_ws(resp.base_ref_name@).len() > 0 {
        Some(resp.base_ref_name@)
    } else {
        None
    }
}

pub fn fetch_pr_base_branch_name(repo: &str, pr: u64, reply: Option<GhPrBaseRefResponse>) -> (r:
    GhExchange<Option<String>>)
    ensures
        match reply {
            None => r matches GhExchange::Run(a) && str_views(a@) == pr_base_branch_args(repo@, pr),
            Some(resp) => r matches GhExchange::Finished(b) && opt_string_view(b) == base_branch(
                resp,
            ),
        },
{
    match reply {
        None => {
            let r = vec![
                String::from_str("pr"),
                String::from_str("view"),
                String::from_str("--repo"),
                repo.to_owned(),
                crate::text::u64_to_string(pr),
                String::from_str("--json"),
                String::from_str("baseRefName"),
            ];
            assert(str_views(r@) =~= pr_base_branch_args(repo@, pr));
            GhExchange::Run(r)
        },
        Some(resp) => {
            let t = trim_vec(&chars_of(resp.base_ref_name.as_str()));
            if t.len() > 0 {
                GhExchange::Finished(Some(resp.base_ref_name))
            } else {
                GhExchange::Finished(None)
            }
        },
    }
}

// ---------------------------------------------------------------------------
// Resolving a review thread
// ---------------------------------------------------------------------------

pub open spec fn resolve_thread_mutation_text() -> Seq<char> {
    "mutation($threadId: ID!) {\n  resolveReviewThread(input: {threadId: $threadId}) {\n    thread {\n      id\n      isResolved\n    }\n  }\n}"@
}

pub fn resolve_thread_mutation() -> (r: &'static str)
    ensures
        r@ == resolve_thread_mutation_text(),
{
    "mutation($threadId: ID!) {\n  resolveReviewThread(input: {threadId: $threadId}) {\n    thread {\n      id\n      isResolved\n    }\n  }\n}"
}

pub open spec fn resolve_thread_args(thread_id: Seq<char>) -> Seq<Seq<char>> {
    seq![
        "api"@,
        "graphql"@,
        "-f"@,
        "query="@ + resolve_thread_mutation_text(),
        "-F"@,
        "threadId="@ + thread_id,
    ]
}

/// The outcome of resolving a thread, as the reply reports it.
pub open spec fn thread_resolution(resp: GhResolveReviewThreadResponse) -> Result<(), Seq<char>> {
    match reported_errors(resp.errors) {
        Some(errs) => Err(graphql_errors_message(errs)),
        None => match resolved_thread(resp) {
            None => Err(missing_thread_data_message()),
            Some(t) => if t.is_resolved {
                Ok(())
            } else {
                Err(unresolved_thread_message(t.id@))
            },
        },
    }
}

/// Marks a review thread resolved.
pub fn resolve_review_thread(thread_id: &str, reply: Option<GhResolveReviewThreadResponse>) -> (r:
    GhExchange<Result<(), String>>)
    ensures
        match reply {
            None => r matches GhExchange::Run(a) && str_views(a@) == resolve_thread_args(thread_id@),
            Some(resp) => r matches GhExchange::Finished(res) && match thread_resolution(resp) {
                Ok(()) => res is Ok,
                Err(m) => res matches Err(e) && e@ == m,
            },
        },
{
    match reply {
        None => {
            let r = vec![
                String::from_str("api"),
                String::from_str("graphql"),
                String::from_str("-f"),
                cat("query=", resolve_thread_mutation()),
                String::from_str("-F"),
                cat("threadId=", thread_id),
            ];
            assert(str_views(r@) =~= resolve_thread_args(thread_id@));
            GhExchange::Run(r)
        },
        Some(resp) => GhExchange::Finished(parse_resolve_review_thread_response(resp)),
    }
}

// ---------------------------------------------------------------------------
// Creating pull requests, issues and comments
// ---------------------------------------------------------------------------

pub open spec fn pr_create_args(
    repo: Seq<char>,
    base: Seq<char>,
    head: Seq<char>,
    title: Seq<char>,
    body_file: Seq<char>,
) -> Seq<Seq<char>> {
    seq![
        "pr"@,
        "create"@,
        "--repo"@,
        repo,
        "--base"@,
        base,
        "--head"@,
        head,
        "--title"@,
        title,
        "--body-file"@,
        body_file,
    ]
}

/// `gh pr create` from `head` onto `base`, with the body in a file.
pub fn pr_create_request(repo: &str, base: &str, head: &str, title: &str, body_file: &str) -> (r:
    Vec<String>)
    ensures
        str_views(r@) == pr_create_args(repo@, base@, head@, title@, body_file@),
{
    let r = vec![
        String::from_str("pr"),
        String::from_str("create"),
        String::from_str("--repo"),
        repo.to_owned(),
        String::from_str("--base"),
        base.to_owned(),
        String::from_str("--head"),
        head.to_owned(),
        String::from_str("--title"),
        title.to_owned(),
        String::from_str("--body-file"),
        body_file.to_owned(),
    ];
    assert(str_views(r@) =~= pr_create_args(repo@, base@, head@, title@, body_file@));
    r
}

pub open spec fn missing_pr_url_message(text: Seq<char>) -> Seq<char> {
    "`gh pr create` succeeded but did not return a PR URL: "@ + text
}

/// The new pull request's URL and number from what `gh pr create` printed.
pub fn follow_up_pr_created(text: &str) -> (r: Result<(String, Option<u64>), String>)
    ensures
        match pr_create_url(text@) {
            Some(u) => r matches Ok(p) && p.0@ == u && p.1 == pr_create_number(text@),
            None => r matches Err(e) && e@ == missing_pr_url_message(text@),
        },
{
    let parsed = parse_gh_pr_create_output(text);
    match parsed.url {
        Some(u) => Ok((u, parsed.number)),
        None => Err(cat("`gh pr create` succeeded but did not return a PR URL: ", text)),
    }
}

pub open spec fn comment_args(kind: Seq<char>, repo: Seq<char>, number: u64, body_file: Seq<char>) -> Seq<
    Seq<char>,
> {
    seq![kind, "comment"@, "--repo"@, repo, dec(number as nat), "--body-file"@, body_file]
}

/// `gh pr comment` on pull request `pr`, with the body in a file.
pub fn pr_comment_request(repo: &str, pr: u64, body_file: &str) -> (r: Vec<String>)
    ensures
        str_views(r@) == comment_args("pr"@, repo@, pr, body_file@),
{
    let r = vec![
        String::from_str("pr"),
        String::from_str("comment"),
        String::from_str("--repo"),
        repo.to_owned(),
        crate::text::u64_to_string(pr),
        String::from_str("--body-file"),
        body_file.to_owned(),
    ];
    assert(str_views(r@) =~= comment_args("pr"@, repo@, pr, body_file@));
    r
}

/// `gh issue comment` on issue `issue_number`, with the body in a file.
pub fn issue_comment_request(repo: &str, issue_number: u64, body_file: &str) -> (r: Vec<String>)
    ensures
        str_views(r@) == comment_args("issue"@, repo@, issue_number, body_file@),
{
    let r = vec![
        String::from_str("issue"),
        String::from_str("comment"),
        String::from_str("--repo"),
        repo.to_owned(),
        crate::text::u64_to_string(issue_number),
        String::from_str("--body-file"),
        body_file.to_owned(),
    ];
    assert(str_views(r@) =~= comment_args("issue"@, repo@, issue_number, body_file@));
    r
}

pub open spec fn issue_create_args(repo: Seq<char>, title: Seq<char>, body_file: Seq<char>) -> Seq<
    Seq<char>,
> {
    seq!["issue"@, "create"@, "--repo"@, repo, "--title"@, title, "--body-file"@, body_file]
}

pub fn issue_create_request(repo: &str, title: &str, body_file: &str) -> (r: Vec<String>)
    ensures
        str_views(r@) == issue_create_args(repo@, title@, body_file@),
{
    let r = vec![
        String::from_str("issue"),
        String::from_str("create"),
        String::from_str("--repo"),
        repo.to_owned(),
        String::from_str("--title"),
        title.to_owned(),
        String::from_str("--body-file"),
        body_file.to_owned(),
    ];
    assert(str_views(r@) =~= issue_create_args(repo@, title@, body_file@));
    r
}

/// The first line of a comment, trimmed.
pub open spec fn first_line_trimmed(body: Seq<char>) -> Seq<char> {
    if lines(body).len() > 0 {
        trim_ws(lines(body)[0])
    } else {
        Seq::<char>::empty()
    }
}

pub open spec fn follow_up_issue_title(pr: u64, author: Seq<char>, body: Seq<char>) -> Seq<char> {
    let head = "Follow-up from PR #"@ + dec(pr as nat) + " comment by "@ + author;
    let first = first_line_trimmed(body);
    if first.len() > 0 {
        head + ": "@ + first.take(if first.len() < 80 { first.len() as int } else { 80 })
    } else {
        head
    }
}

/// `Follow-up from PR #N comment by AUTHOR`, then `: ` and at most 80 chars
/// of the comment's first line when it has one.
pub fn format_follow_up_issue_title(pr: u64, author: &str, comment_body: &str) -> (r: String)
    ensures
        r@ == follow_up_issue_title(pr, author@, comment_body@),
{
    let mut title = cat_decimal("Follow-up from PR #", pr);
    title.append(" comment by ");
    title.append(author);
    let ls = lines_vec(&chars_of(comment_body));
    if ls.len() > 0 {
        let first = trim_vec(&ls[0]);
        if first.len() > 0 {
            let n = if first.len() < 80 {
                first.len()
            } else {
                80
            };
            let head = sub_vec(&first, 0, n);
            assert(head@ =~= first@.take(n as int));
            title.append(": ");
            crate::text::push_chars(&mut title, &head);
        }
    }
    title
}

pub open spec fn missing_issue_url_message(text: Seq<char>) -> Seq<char> {
    "`gh issue create` succeeded but did not return an issue URL: "@ + text
}

/// The new issue's URL from what `gh issue create` printed.
pub fn follow_up_issue_created(text: &str) -> (r: Result<String, String>)
    ensures
        match first_url(text@) {
            Some(u) => r matches Ok(s) && s@ == u,
            None => r matches Err(e) && e@ == missing_issue_url_message(text@),
        },
{
    match extract_first_url(text) {
        Some(u) => Ok(u),
        None => Err(cat("`gh issue create` succeeded but did not return an issue URL: ", text)),
    }
}

} // verus!
