//! Decoded GitHub responses (the shapes `gh` prints as JSON) and what process
//! mode keeps of them.

use crate::model::{OpenIssueComment, UnresolvedReviewComment};
use crate::text::{dec, join, push_decimal, str_views};
use vstd::prelude::*;

verus! {

#[derive(Debug, Clone, PartialEq, Eq)]
pub struct GhGraphQlError {
    pub message: String,
}

#[derive(Debug, Clone, PartialEq, Eq)]
pub struct GhActor {
    pub login: String,
}

#[derive(Debug, Clone, PartialEq, Eq)]
pub struct GhReviewCommentNode {
    pub id: String,
    pub author: Option<GhActor>,
    pub path: String,
    pub line: Option<u64>,
    pub body: String,
    pub url: String,
}

#[derive(Debug, Clone, PartialEq, Eq)]
pub struct GhReviewCommentConnection {
    pub nodes: Vec<GhReviewCommentNode>,
}

#[derive(Debug, Clone, PartialEq, Eq)]
pub struct GhReviewThreadNode {
    pub id: String,
    pub is_resolved: bool,
    pub comments: GhReviewCommentConnection,
}

#[derive(Debug, Clone, PartialEq, Eq)]
pub struct GhPageInfo {
    pub has_next_page: bool,
    pub end_cursor: Option<String>,
}

#[derive(Debug, Clone, PartialEq, Eq)]
pub struct GhReviewThreadConnection {
    pub nodes: Vec<GhReviewThreadNode>,
    pub page_info: GhPageInfo,
}

#[derive(Debug, Clone, PartialEq, Eq)]
pub struct GhPullRequest {
    pub review_threads: GhReviewThreadConnection,
}

#[derive(Debug, Clone, PartialEq, Eq)]
pub struct GhRepository {
    pub pull_request: Option<GhPullRequest>,
}

#[derive(Debug, Clone, PartialEq, Eq)]
pub struct GhGraphQlData {
    pub repository: Option<GhRepository>,
}

/// The review-threads query response.
#[derive(Debug, Clone, PartialEq, Eq)]
pub struct GhGraphQlResponse {
    pub data: Option<GhGraphQlData>,
    pub errors: Option<Vec<GhGraphQlError>>,
}

/// One page of unresolved review comments.
#[derive(Debug, Clone, PartialEq, Eq)]
pub struct UnresolvedReviewCommentPage {
    pub comments: Vec<UnresolvedReviewComment>,
    pub has_next_page: bool,
    pub end_cursor: Option<String>,
}

pub open spec fn error_messages(errors: Seq<GhGraphQlError>) -> Seq<Seq<char>> {
    Seq::new(errors.len(), |i: int| errors[i].message@)
}

pub open spec fn graphql_errors_message(errors: Seq<GhGraphQlError>) -> Seq<char> {
    "GitHub GraphQL returned errors: "@ + join(error_messages(errors), "; "@)
}

/// `Some(errors)` only when the response reports at least one error.
pub open spec fn reported_errors(errors: Option<Vec<GhGraphQlError>>) -> Option<Seq<GhGraphQlError>> {
    match errors {
        Some(e) => if e@.len() > 0 {
            Some(e@)
        } else {
            None
        },
        None => None,
    }
}

fn graphql_errors_string(errors: &Vec<GhGraphQlError>) -> (r: String)
    ensures
        r@ == graphql_errors_message(errors@),
{
    let mut messages: Vec<String> = Vec::new();
    let mut i: usize = 0;
    while i < errors.len()
        invariant
            i <= errors@.len(),
            messages@.len() == i,
            forall|t: int| 0 <= t < i ==> #[trigger] messages@[t]@ == errors@[t].message@,
        decreases errors@.len() - i,
    {
        messages.push(errors[i].message.clone());
        i = i + 1;
    }
    assert(str_views(messages@) =~= error_messages(errors@));
    let joined = crate::text::join_strings(messages.as_slice(), "; ");
    let mut r = String::from_str("GitHub GraphQL returned errors: ");
    r.append(joined.as_str());
    r
}

pub open spec fn author_login(author: Option<GhActor>) -> Seq<char> {
    match author {
        Some(a) => a.login@,
        None => "unknown"@,
    }
}

/// The comments of unresolved threads, in order, each with its thread id.
pub open spec fn unresolved_comment_sources(threads: Seq<GhReviewThreadNode>) -> Seq<
    (GhReviewCommentNode, String),
>
    decreases threads.len(),
{
    if threads.len() == 0 {
        Seq::empty()
    } else {
        let prev = unresolved_comment_sources(threads.drop_last());
        let t = threads.last();
        if t.is_resolved {
            prev
        } else {
            prev + t.comments.nodes@.map_values(|c: GhReviewCommentNode| (c, t.id))
        }
    }
}

/// `r` is the record of review comment `c` of thread `thread_id`.
pub open spec fn comment_record(
    r: UnresolvedReviewComment,
    c: GhReviewCommentNode,
    thread_id: String,
) -> bool {
    &&& r.id == c.id
    &&& r.review_thread_id == Some(thread_id)
    &&& r.author@ == author_login(c.author)
    &&& r.path == c.path
    &&& r.line == c.line
    &&& r.body == c.body
    &&& r.url == c.url
}

pub open spec fn missing_threads_message() -> Seq<char> {
    "GitHub GraphQL response did not include pull request review threads."@
}

pub open spec fn review_threads(response: GhGraphQlResponse) -> Option<GhReviewThreadConnection> {
    match response.data {
        Some(d) => match d.repository {
            Some(r) => match r.pull_request {
                Some(p) => Some(p.review_threads),
                None => None,
            },
            None => None,
        },
        None => None,
    }
}

/// `page` holds the comments of the unresolved threads of `conn`, in order,
/// and its pagination info.
pub open spec fn page_of(page: UnresolvedReviewCommentPage, conn: GhReviewThreadConnection) -> bool {
    &&& page.has_next_page == conn.page_info.has_next_page
    &&& page.end_cursor == conn.page_info.end_cursor
    &&& page.comments@.len() == unresolved_comment_sources(conn.nodes@).len()
    &&& forall|i: int|
        0 <= i < page.comments@.len() ==> comment_record(
            #[trigger] page.comments@[i],
            unresolved_comment_sources(conn.nodes@)[i].0,
            unresolved_comment_sources(conn.nodes@)[i].1,
        )
}

fn review_comment_record(c: &GhReviewCommentNode, thread_id: &String) -> (r: UnresolvedReviewComment)
    ensures
        comment_record(r, *c, *thread_id),
{
    let author = match &c.author {
        Some(a) => a.login.clone(),
        None => String::from_str("unknown"),
    };
    UnresolvedReviewComment {
        id: c.id.clone(),
        review_thread_id: Some(thread_id.clone()),
        author,
        path: c.path.clone(),
        line: c.line,
        body: c.body.clone(),
        url: c.url.clone(),
    }
}

/// Errors reported by the query fail the page; so does a response without
/// review threads. Otherwise the page holds every comment of every unresolved
/// thread, in order, and the pagination info.
pub fn parse_unresolved_review_comment_page(response: GhGraphQlResponse) -> (r: Result<
    UnresolvedReviewCommentPage,
    String,
>)
    ensures
        match reported_errors(response.errors) {
            Some(errs) => r matches Err(e) && e@ == graphql_errors_message(errs),
            None => match review_threads(response) {
                None => r matches Err(e) && e@ == missing_threads_message(),
                Some(conn) => r matches Ok(page) && page_of(page, conn),
            },
        },
{
    if let Some(errors) = &response.errors {
        if errors.len() > 0 {
            return Err(graphql_errors_string(errors));
        }
    }
    let conn = match &response.data {
        Some(d) => match &d.repository {
            Some(repo) => match &repo.pull_request {
                Some(p) => &p.review_threads,
                None => {
                    return Err(
                        String::from_str(
                            "GitHub GraphQL response did not include pull request review threads.",
                        ),
                    );
                },
            },
            None => {
                return Err(
                    String::from_str(
                        "GitHub GraphQL response did not include pull request review threads.",
                    ),
                );
            },
        },
        None => {
            return Err(
                String::from_str(
                    "GitHub GraphQL response did not include pull request review threads.",
                ),
            );
        },
    };
    let ghost threads = conn.nodes@;
    let mut comments: Vec<UnresolvedReviewComment> = Vec::new();
    let mut i: usize = 0;
    assert(threads.take(0) =~= Seq::<GhReviewThreadNode>::empty());
    while i < conn.nodes.len()
        invariant
            i <= threads.len(),
            threads == conn.nodes@,
            comments@.len() == unresolved_comment_sources(threads.take(i as int)).len(),
            forall|k: int|
                0 <= k < comments@.len() ==> comment_record(
                    #[trigger] comments@[k],
                    unresolved_comment_sources(threads.take(i as int))[k].0,
                    unresolved_comment_sources(threads.take(i as int))[k].1,
                ),
        decreases threads.len() - i,
    {
        let thread = &conn.nodes[i];
        let ghost before = unresolved_comment_sources(threads.take(i as int));
        let ghost next = threads.take(i + 1);
        assert(next.drop_last() =~= threads.take(i as int));
        assert(next.last() == *thread);
        if !thread.is_resolved {
            let ghost added = thread.comments.nodes@.map_values(
                |c: GhReviewCommentNode| (c, thread.id),
            );
            assert(unresolved_comment_sources(next) == before + added);
            let mut j: usize = 0;
            while j < thread.comments.nodes.len()
                invariant
                    j <= thread.comments.nodes@.len(),
                    added == thread.comments.nodes@.map_values(
                        |c: GhReviewCommentNode| (c, thread.id),
                    ),
                    comments@.len() == before.len() + j,
                    forall|k: int|
                        0 <= k < comments@.len() ==> comment_record(
                            #[trigger] comments@[k],
                            (before + added)[k].0,
                            (before + added)[k].1,
                        ),
                decreases thread.comments.nodes@.len() - j,
            {
                let rec = review_comment_record(&thread.comments.nodes[j], &thread.id);
                comments.push(rec);
                j = j + 1;
            }
        } else {
            assert(unresolved_comment_sources(next) == before);
        }
        i = i + 1;
    }
    assert(threads.take(threads.len() as int) =~= threads);
    Ok(
        UnresolvedReviewCommentPage {
            comments,
            has_next_page: conn.page_info.has_next_page,
            end_cursor: conn.page_info.end_cursor.clone(),
        },
    )
}

#[derive(Debug, Clone, PartialEq, Eq)]
pub struct GhResolveReviewThreadNode {
    pub id: String,
    pub is_resolved: bool,
}

#[derive(Debug, Clone, PartialEq, Eq)]
pub struct GhResolveReviewThreadPayload {
    pub thread: Option<GhResolveReviewThreadNode>,
}

#[derive(Debug, Clone, PartialEq, Eq)]
pub struct GhResolveReviewThreadData {
    pub resolve_review_thread: Option<GhResolveReviewThreadPayload>,
}

/// The `resolveReviewThread` mutation response.
#[derive(Debug, Clone, PartialEq, Eq)]
pub struct GhResolveReviewThreadResponse {
    pub data: Option<GhResolveReviewThreadData>,
    pub errors: Option<Vec<GhGraphQlError>>,
}

pub open spec fn resolved_thread(response: GhResolveReviewThreadResponse) -> Option<
    GhResolveReviewThreadNode,
> {
    match response.data {
        Some(d) => match d.resolve_review_thread {
            Some(p) => p.thread,
            None => None,
        },
        None => None,
    }
}

pub open spec fn missing_thread_data_message() -> Seq<char> {
    "GitHub GraphQL response did not include resolveReviewThread.thread data."@
}

pub open spec fn unresolved_thread_message(id: Seq<char>) -> Seq<char> {
    "GitHub GraphQL resolveReviewThread returned unresolved thread "@ + id + "."@
}

/// Succeeds exactly when the mutation reports no errors and returns the
/// thread as resolved.
pub fn parse_resolve_review_thread_response(response: GhResolveReviewThreadResponse) -> (r: Result<
    (),
    String,
>)
    ensures
        match reported_errors(response.errors) {
            Some(errs) => r matches Err(e) && e@ == graphql_errors_message(errs),
            None => match resolved_thread(response) {
                None => r matches Err(e) && e@ == missing_thread_data_message(),
                Some(t) => if t.is_resolved {
                    r is Ok
                } else {
                    r matches Err(e) && e@ == unresolved_thread_message(t.id@)
                },
            },
        },
{
    if let Some(errors) = &response.errors {
        if errors.len() > 0 {
            return Err(graphql_errors_string(errors));
        }
    }
    let thread = match &response.data {
        Some(d) => match &d.resolve_review_thread {
            Some(p) => match &p.thread {
                Some(t) => t,
                None => {
                    return Err(
                        String::from_str(
                            "GitHub GraphQL response did not include resolveReviewThread.thread data.",
                        ),
                    );
                },
            },
            None => {
                return Err(
                    String::from_str(
                        "GitHub GraphQL response did not include resolveReviewThread.thread data.",
                    ),
                );
            },
        },
        None => {
            return Err(
                String::from_str(
                    "GitHub GraphQL response did not include resolveReviewThread.thread data.",
                ),
            );
        },
    };
    if !thread.is_resolved {
        let mut m = String::from_str("GitHub GraphQL resolveReviewThread returned unresolved thread ");
        m.append(thread.id.as_str());
        m.append(".");
        return Err(m);
    }
    Ok(())
}

#[derive(Debug, Clone, PartialEq, Eq)]
pub struct GhIssueCommentUser {
    pub login: String,
}

#[derive(Debug, Clone, PartialEq, Eq)]
pub struct GhIssueCommentNode {
    pub id: u64,
    pub body: String,
    pub html_url: String,
    pub user: GhIssueCommentUser,
}

/// The issue-comments listing: pages of comments (`--paginate --slurp`) or
/// one flat list.
#[derive(Debug, Clone, PartialEq, Eq)]
pub enum GhIssueCommentsResponse {
    Paged(Vec<Vec<GhIssueCommentNode>>),
    Flat(Vec<GhIssueCommentNode>),
}

pub open spec fn flatten_pages(pages: Seq<Vec<GhIssueCommentNode>>) -> Seq<GhIssueCommentNode>
    decreases pages.len(),
{
    if pages.len() == 0 {
        Seq::empty()
    } else {
        flatten_pages(pages.drop_last()) + pages.last()@
    }
}

pub open spec fn issue_comment_nodes(response: GhIssueCommentsResponse) -> Seq<GhIssueCommentNode> {
    match response {
        GhIssueCommentsResponse::Paged(pages) => flatten_pages(pages@),
        GhIssueCommentsResponse::Flat(items) => items@,
    }
}

pub open spec fn issue_comment_record(r: OpenIssueComment, c: GhIssueCommentNode) -> bool {
    &&& r.id@ == dec(c.id as nat)
    &&& r.author == c.user.login
    &&& r.body == c.body
    &&& r.url == c.html_url
}

fn issue_comment_of(c: &GhIssueCommentNode) -> (r: OpenIssueComment)
    ensures
        issue_comment_record(r, *c),
{
    let mut id = String::new();
    push_decimal(&mut id, c.id);
    assert(id@ =~= dec(c.id as nat));
    OpenIssueComment {
        id,
        author: c.user.login.clone(),
        body: c.body.clone(),
        url: c.html_url.clone(),
    }
}

fn append_issue_comments(out: &mut Vec<OpenIssueComment>, items: &Vec<GhIssueCommentNode>)
    ensures
        final(out)@.len() == old(out)@.len() + items@.len(),
        forall|k: int| 0 <= k < old(out)@.len() ==> final(out)@[k] == old(out)@[k],
        forall|k: int|
            0 <= k < items@.len() ==> issue_comment_record(
                #[trigger] final(out)@[old(out)@.len() + k],
                items@[k],
            ),
{
    let ghost start = out@;
    let mut j: usize = 0;
    while j < items.len()
        invariant
            j <= items@.len(),
            out@.len() == start.len() + j,
            forall|k: int| 0 <= k < start.len() ==> out@[k] == start[k],
            forall|k: int|
                0 <= k < j ==> issue_comment_record(#[trigger] out@[start.len() + k], items@[k]),
        decreases items@.len() - j,
    {
        let rec = issue_comment_of(&items[j]);
        out.push(rec);
        j = j + 1;
    }
}

/// Every comment of every page, in order, with its numeric id in decimal.
pub fn parse_issue_comments(response: GhIssueCommentsResponse) -> (r: Vec<OpenIssueComment>)
    ensures
        r@.len() == issue_comment_nodes(response).len(),
        forall|k: int|
            0 <= k < r@.len() ==> issue_comment_record(
                #[trigger] r@[k],
                issue_comment_nodes(response)[k],
            ),
{
    let mut out: Vec<OpenIssueComment> = Vec::new();
    match &response {
        GhIssueCommentsResponse::Paged(pages) => {
            let mut i: usize = 0;
            assert(pages@.take(0) =~= Seq::<Vec<GhIssueCommentNode>>::empty());
            while i < pages.len()
                invariant
                    i <= pages@.len(),
                    out@.len() == flatten_pages(pages@.take(i as int)).len(),
                    forall|k: int|
                        0 <= k < out@.len() ==> issue_comment_record(
                            #[trigger] out@[k],
                            flatten_pages(pages@.take(i as int))[k],
                        ),
                decreases pages@.len() - i,
            {
                let ghost before = flatten_pages(pages@.take(i as int));
                assert(pages@.take(i + 1).drop_last() =~= pages@.take(i as int));
                let ghost after = flatten_pages(pages@.take(i + 1));
                assert(after == before + pages@[i as int]@);
                let ghost out_before = out@;
                append_issue_comments(&mut out, &pages[i]);
                assert forall|k: int| 0 <= k < out@.len() implies issue_comment_record(
                    #[trigger] out@[k],
                    after[k],
                ) by {
                    if k < out_before.len() {
                        assert(out@[k] == out_before[k]);
                    } else {
                        let j = k - out_before.len();
                        assert(out@[out_before.len() + j] == out@[k]);
                        assert(after[k] == pages@[i as int]@[j]);
                    }
                }
                i = i + 1;
            }
            assert(pages@.take(pages@.len() as int) =~= pages@);
        },
        GhIssueCommentsResponse::Flat(items) => {
            append_issue_comments(&mut out, items);
            assert forall|k: int| 0 <= k < out@.len() implies issue_comment_record(
                #[trigger] out@[k],
                items@[k],
            ) by {
                assert(out@[0 + k] == out@[k]);
            }
        },
    }
    out
}

} // verus!
