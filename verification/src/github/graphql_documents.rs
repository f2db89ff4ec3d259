use vstd::prelude::*;

use crate::cli::ResourceKind;
use crate::model::{
    Comment, ExportDocument, MetadataField, RawGraphQlRequest, RawPayload, ReviewThread,
};
use crate::text::{
    bool_text, bool_to_text, decimal_digits, i64_to_decimal, lowercase, signed_decimal,
    to_lowercase, usize_to_decimal,
};

use super::documents::{is_rest_payload, rest_payload};
use super::graphql::{
    are_group_reactions, graphql_actors_of, group_reactions, GraphQlDiscussion, GraphQlIssue,
    GraphQlIssueComment, GraphQlPullRequest, GraphQlRepoRef,
};
use super::graphql_convert::{
    graphql_comments_of, graphql_labels_of, graphql_reviews_of, is_graphql_commit_of,
    is_opt_graphql_actor_of, is_opt_graphql_milestone_of, opt_groups, requested_reviewers,
    reviewer_users, to_actor_list, to_comments, to_commit_summary, to_label_list,
    to_opt_actor, to_opt_milestone, to_reviews,
};
use super::rest::RestPullRequestFile;
use super::{are_changed_files_of, field_views, push_field, to_changed_files};

verus! {

/// `p` is a raw GraphQL payload named `name` holding `payload`, with the URLs and the
/// requests that produced it.
pub open spec fn is_graphql_payload(
    p: RawPayload,
    name: Seq<char>,
    payload: serde_json::Value,
    urls: Seq<String>,
    requests: Seq<RawGraphQlRequest>,
) -> bool {
    &&& p.name@ == name
    &&& p.payload == payload
    &&& p.request_urls@ == urls
    &&& p.graphql_requests@ == requests
}

fn graphql_payload(
    name: &str,
    payload: serde_json::Value,
    urls: Vec<String>,
    requests: Vec<RawGraphQlRequest>,
) -> (r: RawPayload)
    ensures
        is_graphql_payload(r, name@, payload, urls@, requests@),
{
    RawPayload { name: String::from_str(name), payload, request_urls: urls, graphql_requests: requests }
}

/// A document's parts that no GraphQL export sets: they keep their empty values.
pub open spec fn pull_request_parts_empty(d: ExportDocument) -> bool {
    &&& !d.draft && d.merged_by is None && d.merge_commit_sha is None && d.mergeable_state is None
    &&& d.base is None && d.head is None && d.checks@.len() == 0
    &&& d.state_reason is None && !d.locked && d.active_lock_reason is None
    &&& d.timeline@.len() == 0
}

/// What was fetched over GraphQL to export an issue: the issue, all of its comments, and
/// the raw responses with the requests that produced them.
pub struct GraphQlIssueParts {
    pub issue: GraphQlIssue,
    pub comments: Vec<GraphQlIssueComment>,
    pub issue_json: serde_json::Value,
    pub comments_json: serde_json::Value,
    pub graphql_url: String,
    /// The record of the first request, without its cursor.
    pub issue_request: RawGraphQlRequest,
    pub request_urls: Vec<String>,
    pub graphql_requests: Vec<RawGraphQlRequest>,
}

/// The metadata of an issue exported over GraphQL: how many comments it has, whether it
/// is locked, and its lock and state reasons where it has them.
pub open spec fn graphql_issue_metadata(issue: GraphQlIssue, comment_count: nat) -> Seq<(Seq<char>, Seq<char>)> {
    let base = seq![("Comments"@, decimal_digits(comment_count)), ("Locked"@, bool_text(issue.locked))];
    let with_lock = match issue.active_lock_reason {
        Some(r) => base.push(("Lock reason"@, r@)),
        None => base,
    };
    match issue.state_reason {
        Some(r) => with_lock.push(("State reason"@, r@)),
        None => with_lock,
    }
}

/// The document exported over GraphQL for an issue.
pub open spec fn is_graphql_issue_document(d: ExportDocument, owner: Seq<char>, repo: Seq<char>, number: u64, p: GraphQlIssueParts) -> bool {
    &&& d.kind == ResourceKind::Issue
    &&& d.owner@ == owner && d.repo@ == repo && d.number == number
    &&& d.title == p.issue.title && d.url == p.issue.url
    &&& d.state@ == lowercase(p.issue.state@)
    &&& d.body == p.issue.body
    &&& is_opt_graphql_actor_of(d.author, p.issue.author)
    &&& d.author_association == p.issue.author_association
    &&& d.created_at == Some(p.issue.created_at) && d.updated_at == Some(p.issue.updated_at)
    &&& d.closed_at == p.issue.closed_at
    &&& graphql_labels_of(d.labels@, p.issue.labels.nodes@)
    &&& graphql_actors_of(d.assignees@, p.issue.assignees.nodes@)
    &&& are_group_reactions(d.reactions@, opt_groups(p.issue.reaction_groups))
    &&& is_opt_graphql_milestone_of(d.milestone, p.issue.milestone)
    &&& field_views(d.metadata@) == graphql_issue_metadata(p.issue, p.comments@.len())
    &&& graphql_comments_of(d.comments@, p.comments@)
    &&& d.raw_payloads@.len() == 2
    &&& is_graphql_payload(d.raw_payloads@[0], "graphql.issue"@, p.issue_json, seq![p.graphql_url], seq![p.issue_request])
    &&& is_graphql_payload(
        d.raw_payloads@[1],
        "graphql.issue_comments"@,
        p.comments_json,
        p.request_urls@,
        p.graphql_requests@,
    )
    &&& pull_request_parts_empty(d)
    &&& d.requested_reviewers@.len() == 0 && d.reviews@.len() == 0 && d.review_threads@.len() == 0
    &&& d.files@.len() == 0 && d.commits@.len() == 0
}

/// The document for an issue from what was fetched over GraphQL.
pub fn graphql_issue_document(owner: &str, repo: &str, number: u64, parts: GraphQlIssueParts) -> (d: ExportDocument)
    ensures
        is_graphql_issue_document(d, owner@, repo@, number, parts),
{
    let ghost p = parts;
    let GraphQlIssueParts {
        issue,
        comments,
        issue_json,
        comments_json,
        graphql_url,
        issue_request,
        request_urls,
        graphql_requests,
    } = parts;
    let mut metadata: Vec<MetadataField> = Vec::new();
    push_field(&mut metadata, "Comments", usize_to_decimal(comments.len()));
    push_field(&mut metadata, "Locked", bool_to_text(issue.locked));
    assert(field_views(metadata@) =~= seq![
        ("Comments"@, decimal_digits(p.comments@.len())),
        ("Locked"@, bool_text(p.issue.locked)),
    ]);
    if let Some(reason) = &issue.active_lock_reason {
        push_field(&mut metadata, "Lock reason", reason.clone());
    }
    if let Some(reason) = &issue.state_reason {
        push_field(&mut metadata, "State reason", reason.clone());
    }
    let mut first_urls: Vec<String> = Vec::new();
    first_urls.push(graphql_url);
    let mut first_requests: Vec<RawGraphQlRequest> = Vec::new();
    first_requests.push(issue_request);
    let mut raw_payloads: Vec<RawPayload> = Vec::new();
    raw_payloads.push(graphql_payload("graphql.issue", issue_json, first_urls, first_requests));
    raw_payloads.push(graphql_payload("graphql.issue_comments", comments_json, request_urls, graphql_requests));
    assert(seq![p.graphql_url] =~= seq![p.graphql_url]);
    let reactions = group_reactions(&issue.reaction_groups);
    let state = to_lowercase(issue.state.as_str());
    let GraphQlIssue {
        title,
        url,
        body,
        author,
        author_association,
        created_at,
        updated_at,
        closed_at,
        milestone,
        labels,
        assignees,
        ..
    } = issue;
    ExportDocument {
        kind: ResourceKind::Issue,
        owner: String::from_str(owner),
        repo: String::from_str(repo),
        number,
        title,
        url,
        state,
        body,
        author: to_opt_actor(author),
        author_association,
        created_at: Some(created_at),
        updated_at: Some(updated_at),
        closed_at,
        state_reason: None,
        locked: false,
        active_lock_reason: None,
        draft: false,
        merged_by: None,
        merge_commit_sha: None,
        mergeable_state: None,
        base: None,
        head: None,
        checks: Vec::new(),
        labels: to_label_list(labels.nodes),
        assignees: to_actor_list(assignees.nodes),
        requested_reviewers: Vec::new(),
        reactions,
        metadata,
        milestone: to_opt_milestone(milestone),
        comments: to_comments(comments),
        reviews: Vec::new(),
        review_threads: Vec::new(),
        timeline: Vec::new(),
        files: Vec::new(),
        commits: Vec::new(),
        raw_payloads,
    }
}

/// `repo:ref` of a GraphQL branch; a missing repository leaves the part before `:` empty.
pub open spec fn graphql_branch_text(repo: Option<GraphQlRepoRef>, ref_name: Seq<char>) -> Seq<char> {
    match repo {
        Some(r) => r.name_with_owner@ + seq![':'] + ref_name,
        None => seq![':'] + ref_name,
    }
}

fn graphql_branch_label(repo: &Option<GraphQlRepoRef>, ref_name: &String) -> (r: String)
    ensures
        r@ == graphql_branch_text(*repo, ref_name@),
{
    let mut r = match repo {
        Some(x) => x.name_with_owner.clone(),
        None => String::new(),
    };
    crate::text::push_char(&mut r, ':');
    r.append(ref_name.as_str());
    r
}

/// The metadata of a pull request exported over GraphQL: whether it is a draft and
/// merged, its mergeable state (lower-cased), its base and head branches, its commit,
/// changed-file, addition and deletion counts, and when, by whom and as which commit it
/// was merged, where known.
pub open spec fn graphql_pull_request_metadata(pull: GraphQlPullRequest) -> Seq<(Seq<char>, Seq<char>)> {
    let base = Seq::<(Seq<char>, Seq<char>)>::empty().push(("Draft"@, bool_text(pull.is_draft))).push(
        ("Merged"@, bool_text(pull.merged)),
    ).push(("Mergeable state"@, lowercase(pull.mergeable@))).push(
        ("Base"@, graphql_branch_text(pull.base_repository, pull.base_ref_name@)),
    ).push(("Head"@, graphql_branch_text(pull.head_repository, pull.head_ref_name@))).push(
        ("Commits"@, signed_decimal(pull.commits.total_count as int)),
    ).push(("Changed files"@, signed_decimal(pull.changed_files as int))).push(
        ("Additions"@, signed_decimal(pull.additions as int)),
    ).push(("Deletions"@, signed_decimal(pull.deletions as int)));
    let with_merged_at = match pull.merged_at {
        Some(t) => match crate::model::rfc3339_text(t.seconds, t.nanos) {
            Some(text) => base.push(("Merged at"@, text)),
            None => base,
        },
        None => base,
    };
    let with_merged_by = match pull.merged_by {
        Some(a) => with_merged_at.push(("Merged by"@, a.login@)),
        None => with_merged_at,
    };
    match pull.potential_merge_commit {
        Some(c) => with_merged_by.push(("Merge commit"@, c.oid@)),
        None => with_merged_by,
    }
}

fn graphql_pull_request_fields(pull: &GraphQlPullRequest) -> (r: Vec<MetadataField>)
    ensures
        field_views(r@) == graphql_pull_request_metadata(*pull),
        pull.merged_at matches Some(t) ==> (crate::model::rfc3339_text(t.seconds, t.nanos) is Some
            <==> t.is_representable()),
{
    let mut fields: Vec<MetadataField> = Vec::new();
    assert(field_views(fields@) =~= Seq::<(Seq<char>, Seq<char>)>::empty());
    push_field(&mut fields, "Draft", bool_to_text(pull.is_draft));
    push_field(&mut fields, "Merged", bool_to_text(pull.merged));
    push_field(&mut fields, "Mergeable state", to_lowercase(pull.mergeable.as_str()));
    push_field(&mut fields, "Base", graphql_branch_label(&pull.base_repository, &pull.base_ref_name));
    push_field(&mut fields, "Head", graphql_branch_label(&pull.head_repository, &pull.head_ref_name));
    push_field(&mut fields, "Commits", i64_to_decimal(pull.commits.total_count));
    push_field(&mut fields, "Changed files", i64_to_decimal(pull.changed_files));
    push_field(&mut fields, "Additions", i64_to_decimal(pull.additions));
    push_field(&mut fields, "Deletions", i64_to_decimal(pull.deletions));
    if let Some(t) = pull.merged_at {
        if let Some(text) = crate::model::timestamp_to_rfc3339(t) {
            push_field(&mut fields, "Merged at", text);
        }
    }
    if let Some(actor) = &pull.merged_by {
        push_field(&mut fields, "Merged by", actor.login.clone());
    }
    if let Some(c) = &pull.potential_merge_commit {
        push_field(&mut fields, "Merge commit", c.oid.clone());
    }
    fields
}

/// What was fetched to export a pull request over GraphQL: the pull request, all of its
/// comments, its expanded review threads, its files (over REST), and the raw responses.
pub struct GraphQlPullRequestParts {
    pub pull: GraphQlPullRequest,
    pub comments: Vec<GraphQlIssueComment>,
    pub review_threads: Vec<ReviewThread>,
    pub files: Vec<RestPullRequestFile>,
    pub pull_json: serde_json::Value,
    pub files_json: serde_json::Value,
    pub request_urls: Vec<String>,
    pub graphql_requests: Vec<RawGraphQlRequest>,
    pub file_urls: Vec<String>,
}

/// The document exported over GraphQL for a pull request.
pub open spec fn is_graphql_pull_request_document(
    d: ExportDocument,
    owner: Seq<char>,
    repo: Seq<char>,
    number: u64,
    p: GraphQlPullRequestParts,
) -> bool {
    &&& d.kind == ResourceKind::PullRequest
    &&& d.owner@ == owner && d.repo@ == repo && d.number == number
    &&& d.title == p.pull.title && d.url == p.pull.url
    &&& d.state@ == lowercase(p.pull.state@)
    &&& d.body == p.pull.body
    &&& is_opt_graphql_actor_of(d.author, p.pull.author)
    &&& d.author_association == p.pull.author_association
    &&& d.created_at == Some(p.pull.created_at) && d.updated_at == Some(p.pull.updated_at)
    &&& d.closed_at == p.pull.closed_at
    &&& graphql_labels_of(d.labels@, p.pull.labels.nodes@)
    &&& graphql_actors_of(d.assignees@, p.pull.assignees.nodes@)
    &&& graphql_actors_of(d.requested_reviewers@, reviewer_users(p.pull.review_requests.nodes@))
    &&& are_group_reactions(d.reactions@, opt_groups(p.pull.reaction_groups))
    &&& is_opt_graphql_milestone_of(d.milestone, p.pull.milestone)
    &&& field_views(d.metadata@) == graphql_pull_request_metadata(p.pull)
    &&& graphql_comments_of(d.comments@, p.comments@)
    &&& graphql_reviews_of(d.reviews@, p.pull.reviews.nodes@)
    &&& d.review_threads == p.review_threads
    &&& are_changed_files_of(d.files@, p.files@)
    &&& d.commits@.len() == p.pull.commits.nodes@.len()
    &&& forall|i: int|
        0 <= i < d.commits@.len() ==> is_graphql_commit_of(#[trigger] d.commits@[i], p.pull.commits.nodes@[i].commit)
    &&& d.raw_payloads@.len() == 2
    &&& is_graphql_payload(
        d.raw_payloads@[0],
        "graphql.pull_request"@,
        p.pull_json,
        p.request_urls@,
        p.graphql_requests@,
    )
    &&& is_rest_payload(d.raw_payloads@[1], "rest.pull_request_files"@, p.files_json, p.file_urls@)
    &&& pull_request_parts_empty(d)
}

fn graphql_commits(nodes: Vec<super::graphql::GraphQlPullRequestCommit>) -> (r: Vec<crate::model::CommitSummary>)
    ensures
        r@.len() == nodes@.len(),
        forall|i: int| 0 <= i < nodes@.len() ==> is_graphql_commit_of(#[trigger] r@[i], nodes@[i].commit),
{
    let ghost src = nodes@;
    let mut nodes = nodes;
    let mut r: Vec<crate::model::CommitSummary> = Vec::new();
    let n = nodes.len();
    let mut i: usize = 0;
    while i < n
        invariant
            n == src.len(),
            i <= n,
            nodes@ == src.skip(i as int),
            r@.len() == i,
            forall|j: int| 0 <= j < i ==> is_graphql_commit_of(#[trigger] r@[j], src[j].commit),
        decreases n - i,
    {
        let c = nodes.remove(0);
        assert(nodes@ =~= src.skip(i as int + 1));
        r.push(to_commit_summary(c.commit));
        i = i + 1;
    }
    r
}

/// The document for a pull request from what was fetched over GraphQL.
pub fn graphql_pull_request_document(owner: &str, repo: &str, number: u64, parts: GraphQlPullRequestParts) -> (d: ExportDocument)
    ensures
        is_graphql_pull_request_document(d, owner@, repo@, number, parts),
        parts.pull.merged_at matches Some(t) ==> (crate::model::rfc3339_text(t.seconds, t.nanos) is Some
            <==> t.is_representable()),
{
    let ghost p = parts;
    let GraphQlPullRequestParts {
        pull,
        comments,
        review_threads,
        files,
        pull_json,
        files_json,
        request_urls,
        graphql_requests,
        file_urls,
    } = parts;
    let metadata = graphql_pull_request_fields(&pull);
    let reactions = group_reactions(&pull.reaction_groups);
    let state = to_lowercase(pull.state.as_str());
    let mut raw_payloads: Vec<RawPayload> = Vec::new();
    raw_payloads.push(graphql_payload("graphql.pull_request", pull_json, request_urls, graphql_requests));
    raw_payloads.push(rest_payload("rest.pull_request_files", files_json, file_urls));
    let GraphQlPullRequest {
        title,
        url,
        body,
        author,
        author_association,
        created_at,
        updated_at,
        closed_at,
        labels,
        assignees,
        milestone,
        review_requests,
        reviews,
        commits,
        ..
    } = pull;
    ExportDocument {
        kind: ResourceKind::PullRequest,
        owner: String::from_str(owner),
        repo: String::from_str(repo),
        number,
        title,
        url,
        state,
        body,
        author: to_opt_actor(author),
        author_association,
        created_at: Some(created_at),
        updated_at: Some(updated_at),
        closed_at,
        state_reason: None,
        locked: false,
        active_lock_reason: None,
        draft: false,
        merged_by: None,
        merge_commit_sha: None,
        mergeable_state: None,
        base: None,
        head: None,
        checks: Vec::new(),
        labels: to_label_list(labels.nodes),
        assignees: to_actor_list(assignees.nodes),
        requested_reviewers: requested_reviewers(review_requests.nodes),
        reactions,
        metadata,
        milestone: to_opt_milestone(milestone),
        comments: to_comments(comments),
        reviews: to_reviews(reviews.nodes),
        review_threads,
        timeline: Vec::new(),
        files: to_changed_files(&files),
        commits: graphql_commits(commits.nodes),
        raw_payloads,
    }
}

/// What was fetched to export a discussion: the discussion, its rendered comments with
/// their replies, and the raw responses with the requests that produced them.
pub struct GraphQlDiscussionParts {
    pub discussion: GraphQlDiscussion,
    pub comments: Vec<Comment>,
    pub discussion_json: serde_json::Value,
    pub comments_json: serde_json::Value,
    pub graphql_url: String,
    /// The record of the first request.
    pub discussion_request: RawGraphQlRequest,
    pub comment_request_urls: Vec<String>,
    pub comment_graphql_requests: Vec<RawGraphQlRequest>,
}

/// The metadata of a discussion: its category and the category's slug, whether it is
/// closed and locked, how many comments it has, and when and by whom an answer was chosen,
/// where one was.
pub open spec fn discussion_metadata(d: GraphQlDiscussion, comment_count: nat) -> Seq<(Seq<char>, Seq<char>)> {
    let base = seq![
        ("Category"@, d.category.name@),
        ("Category slug"@, d.category.slug@),
        ("Closed"@, bool_text(d.closed)),
        ("Locked"@, bool_text(d.locked)),
        ("Comment count"@, decimal_digits(comment_count)),
    ];
    let with_at = match d.answer_chosen_at {
        Some(t) => match crate::model::rfc3339_text(t.seconds, t.nanos) {
            Some(text) => base.push(("Answer chosen at"@, text)),
            None => base,
        },
        None => base,
    };
    match d.answer_chosen_by {
        Some(a) => with_at.push(("Answer chosen by"@, a.login@)),
        None => with_at,
    }
}

/// The document exported for a discussion.
pub open spec fn is_discussion_document(d: ExportDocument, owner: Seq<char>, repo: Seq<char>, number: u64, p: GraphQlDiscussionParts) -> bool {
    &&& d.kind == ResourceKind::Discussion
    &&& d.owner@ == owner && d.repo@ == repo && d.number == number
    &&& d.title == p.discussion.title && d.url == p.discussion.url
    &&& d.state@ == if p.discussion.closed {
        "closed"@
    } else {
        "open"@
    }
    &&& d.body == p.discussion.body
    &&& is_opt_graphql_actor_of(d.author, p.discussion.author)
    &&& d.author_association == p.discussion.author_association
    &&& d.created_at == Some(p.discussion.created_at) && d.updated_at == Some(p.discussion.updated_at)
    &&& d.closed_at == p.discussion.closed_at
    &&& graphql_labels_of(d.labels@, p.discussion.labels.nodes@)
    &&& are_group_reactions(d.reactions@, opt_groups(p.discussion.reaction_groups))
    &&& field_views(d.metadata@) == discussion_metadata(p.discussion, p.comments@.len())
    &&& d.comments == p.comments
    &&& d.raw_payloads@.len() == 2
    &&& is_graphql_payload(
        d.raw_payloads@[0],
        "graphql.discussion"@,
        p.discussion_json,
        seq![p.graphql_url],
        seq![p.discussion_request],
    )
    &&& is_graphql_payload(
        d.raw_payloads@[1],
        "graphql.discussion_comments"@,
        p.comments_json,
        p.comment_request_urls@,
        p.comment_graphql_requests@,
    )
    &&& pull_request_parts_empty(d)
    &&& d.assignees@.len() == 0 && d.milestone is None
    &&& d.requested_reviewers@.len() == 0 && d.reviews@.len() == 0 && d.review_threads@.len() == 0
    &&& d.files@.len() == 0 && d.commits@.len() == 0
}

fn discussion_fields(discussion: &GraphQlDiscussion, comment_count: usize) -> (r: Vec<MetadataField>)
    ensures
        field_views(r@) == discussion_metadata(*discussion, comment_count as nat),
        discussion.answer_chosen_at matches Some(t) ==> (crate::model::rfc3339_text(t.seconds, t.nanos)
            is Some <==> t.is_representable()),
{
    let mut fields: Vec<MetadataField> = Vec::new();
    push_field(&mut fields, "Category", discussion.category.name.clone());
    push_field(&mut fields, "Category slug", discussion.category.slug.clone());
    push_field(&mut fields, "Closed", bool_to_text(discussion.closed));
    push_field(&mut fields, "Locked", bool_to_text(discussion.locked));
    push_field(&mut fields, "Comment count", usize_to_decimal(comment_count));
    assert(field_views(fields@) =~= seq![
        ("Category"@, discussion.category.name@),
        ("Category slug"@, discussion.category.slug@),
        ("Closed"@, bool_text(discussion.closed)),
        ("Locked"@, bool_text(discussion.locked)),
        ("Comment count"@, decimal_digits(comment_count as nat)),
    ]);
    if let Some(t) = discussion.answer_chosen_at {
        if let Some(text) = crate::model::timestamp_to_rfc3339(t) {
            push_field(&mut fields, "Answer chosen at", text);
        }
    }
    if let Some(actor) = &discussion.answer_chosen_by {
        push_field(&mut fields, "Answer chosen by", actor.login.clone());
    }
    fields
}

/// The document for a discussion from what was fetched over GraphQL.
pub fn graphql_discussion_document(owner: &str, repo: &str, number: u64, parts: GraphQlDiscussionParts) -> (d: ExportDocument)
    ensures
        is_discussion_document(d, owner@, repo@, number, parts),
        parts.discussion.answer_chosen_at matches Some(t) ==> (crate::model::rfc3339_text(
            t.seconds,
            t.nanos,
        ) is Some <==> t.is_representable()),
{
    let ghost p = parts;
    let GraphQlDiscussionParts {
        discussion,
        comments,
        discussion_json,
        comments_json,
        graphql_url,
        discussion_request,
        comment_request_urls,
        comment_graphql_requests,
    } = parts;
    let metadata = discussion_fields(&discussion, comments.len());
    let reactions = group_reactions(&discussion.reaction_groups);
    let mut first_urls: Vec<String> = Vec::new();
    first_urls.push(graphql_url);
    let mut first_requests: Vec<RawGraphQlRequest> = Vec::new();
    first_requests.push(discussion_request);
    let mut raw_payloads: Vec<RawPayload> = Vec::new();
    raw_payloads.push(graphql_payload("graphql.discussion", discussion_json, first_urls, first_requests));
    raw_payloads.push(
        graphql_payload("graphql.discussion_comments", comments_json, comment_request_urls, comment_graphql_requests),
    );
    assert(seq![p.graphql_url] =~= seq![p.graphql_url]);
    let state = if discussion.closed {
        String::from_str("closed")
    } else {
        String::from_str("open")
    };
    let GraphQlDiscussion {
        title,
        url,
        body,
        author,
        author_association,
        created_at,
        updated_at,
        closed_at,
        labels,
        ..
    } = discussion;
    ExportDocument {
        kind: ResourceKind::Discussion,
        owner: String::from_str(owner),
        repo: String::from_str(repo),
        number,
        title,
        url,
        state,
        body,
        author: to_opt_actor(author),
        author_association,
        created_at: Some(created_at),
        updated_at: Some(updated_at),
        closed_at,
        state_reason: None,
        locked: false,
        active_lock_reason: None,
        draft: false,
        merged_by: None,
        merge_commit_sha: None,
        mergeable_state: None,
        base: None,
        head: None,
        checks: Vec::new(),
        labels: to_label_list(labels.nodes),
        assignees: Vec::new(),
        requested_reviewers: Vec::new(),
        reactions,
        metadata,
        milestone: None,
        comments,
        reviews: Vec::new(),
        review_threads: Vec::new(),
        timeline: Vec::new(),
        files: Vec::new(),
        commits: Vec::new(),
        raw_payloads,
    }
}

} // verus!
