use ghdump::cli::{ResolvedTarget, ResourceKind};
use ghdump::github::documents::{rest_issue_document, skip_notice, RestIssueParts};
use ghdump::github::enrich::build_checks;
use ghdump::github::finish::{
    checks_payloads, finish_graphql_issue, finish_graphql_pull_request, head_sha,
    review_threads_payload,
};
use ghdump::github::graphql::{
    GraphQlActor, GraphQlActorConnection, GraphQlCommitConnection, GraphQlCommitRef,
    GraphQlDiscussion, GraphQlDiscussionCategory, GraphQlDiscussionComment,
    GraphQlDiscussionCommentConnection, GraphQlIssue, GraphQlIssueComment,
    GraphQlIssueCommentConnection, GraphQlLabel, GraphQlLabelConnection, GraphQlPageInfo,
    GraphQlPullRequest, GraphQlRepoRef, GraphQlReview, GraphQlReviewConnection,
    GraphQlReviewRequest, GraphQlReviewRequestConnection, GraphQlReviewThreadConnection,
    GraphQlReviewer,
};
use ghdump::github::graphql_convert::{
    collect_page, discussion_comment_of, graphql_request, require_found, to_review,
};
use ghdump::github::graphql_documents::{
    graphql_discussion_document, graphql_issue_document, graphql_pull_request_document,
    GraphQlDiscussionParts, GraphQlIssueParts, GraphQlPullRequestParts,
};
use ghdump::github::pull_documents::{
    rest_pull_request_document, RestPullRequestParts, RestPullRequestPayloads,
};
use ghdump::github::rest::{
    RestActor, RestBranchRef, RestCheckRun, RestCheckRunApp, RestCheckRunsResponse,
    RestCombinedStatus, RestCommitStatus, RestIssue, RestLabel, RestPullRequest, RestReactions,
    RestRepoRef, RestTimelineEvent,
};
use ghdump::github::{issue_metadata, pull_request_metadata, to_reactions};
use ghdump::model::{
    BranchRef, CheckStatus, Comment, ExportDocument, MetadataField, RawGraphQlRequest, RawPayload,
    Reaction, ReviewThread, Timestamp,
};
use serde_json::Value;

fn at(seconds: i64) -> Timestamp {
    Timestamp { seconds, nanos: 0 }
}

fn pairs(fields: &[MetadataField]) -> Vec<(String, String)> {
    fields.iter().map(|f| (f.name.clone(), f.value.clone())).collect()
}

fn pair(name: &str, value: &str) -> (String, String) {
    (name.to_owned(), value.to_owned())
}

fn target(kind: ResourceKind, number: u64) -> ResolvedTarget {
    ResolvedTarget {
        owner: "acme".to_owned(),
        repo: "widgets".to_owned(),
        number,
        kind,
        original: format!("https://github.com/acme/widgets/issues/{number}"),
    }
}

fn rest_issue() -> RestIssue {
    RestIssue {
        html_url: "https://github.com/acme/widgets/issues/7".to_owned(),
        title: "Fixture issue title".to_owned(),
        body: None,
        state: "OPEN".to_owned(),
        state_reason: Some("reopened".to_owned()),
        user: Some(RestActor { login: "author".to_owned(), html_url: None }),
        author_association: Some("OWNER".to_owned()),
        labels: vec![RestLabel {
            name: "bug".to_owned(),
            color: Some("d73a4a".to_owned()),
            description: Some("Something is broken".to_owned()),
        }],
        assignees: vec![],
        comments: 12,
        created_at: at(1_700_000_000),
        updated_at: at(1_700_000_100),
        closed_at: None,
        milestone: None,
        reactions: Some(RestReactions {
            plus_one: 2,
            minus_one: 0,
            laugh: 0,
            hooray: 0,
            confused: 0,
            heart: 1,
            rocket: 0,
            eyes: 3,
        }),
        locked: true,
        active_lock_reason: Some("resolved".to_owned()),
    }
}

#[test]
fn rest_reaction_counts_keep_github_order_and_drop_zeroes() {
    let issue = rest_issue();
    let reactions: Vec<(String, u64)> = to_reactions(issue.reactions.as_ref())
        .into_iter()
        .map(|r| (r.content, r.count))
        .collect();
    assert_eq!(
        reactions,
        vec![("+1".to_owned(), 2), ("heart".to_owned(), 1), ("eyes".to_owned(), 3)]
    );
    assert!(to_reactions(None).is_empty());
}

#[test]
fn issue_metadata_lists_counts_lock_and_reasons() {
    assert_eq!(
        pairs(&issue_metadata(&rest_issue())),
        vec![
            pair("Comments", "12"),
            pair("Locked", "true"),
            pair("Lock reason", "resolved"),
            pair("State reason", "reopened"),
        ]
    );
}

fn rest_pull() -> RestPullRequest {
    RestPullRequest {
        html_url: "https://github.com/acme/widgets/pull/11".to_owned(),
        title: "Fixture pull request".to_owned(),
        body: Some("Support offline fixtures".to_owned()),
        state: "closed".to_owned(),
        draft: false,
        merged: Some(true),
        merged_at: Some(at(1714298400)),
        merged_by: Some(RestActor { login: "merger".to_owned(), html_url: None }),
        user: Some(RestActor { login: "author".to_owned(), html_url: None }),
        created_at: at(1_700_000_000),
        updated_at: at(1_700_000_100),
        closed_at: Some(at(1714298400)),
        additions: 10,
        deletions: -1,
        changed_files: 2,
        commits: 3,
        mergeable_state: Some("CLEAN".to_owned()),
        merge_commit_sha: Some("deadbeef".to_owned()),
        base: RestBranchRef {
            ref_field: "main".to_owned(),
            sha: "b1".to_owned(),
            repo: Some(RestRepoRef { full_name: "acme/widgets".to_owned() }),
        },
        head: RestBranchRef { ref_field: "feature".to_owned(), sha: "h1".to_owned(), repo: None },
        requested_reviewers: vec![RestActor { login: "inspector".to_owned(), html_url: None }],
    }
}

#[test]
fn pull_request_metadata_follows_issue_metadata() {
    let mut issue = rest_issue();
    issue.locked = false;
    issue.active_lock_reason = None;
    issue.state_reason = None;
    assert_eq!(
        pairs(&pull_request_metadata(&rest_pull(), &issue)),
        vec![
            pair("Comments", "12"),
            pair("Draft", "false"),
            pair("Merged", "true"),
            pair("Mergeable state", "clean"),
            pair("Base", "acme/widgets:main"),
            pair("Head", "unknown:feature"),
            pair("Commits", "3"),
            pair("Changed files", "2"),
            pair("Additions", "10"),
            pair("Deletions", "-1"),
            pair("Merged at", "2024-04-28T10:00:00+00:00"),
            pair("Merged by", "merger"),
            pair("Merge commit", "deadbeef"),
        ]
    );
}

fn payload(name: &str) -> RawPayload {
    RawPayload { name: name.to_owned(), ..RawPayload::default() }
}

#[test]
fn rest_issue_document_collects_parts_and_notices() {
    let comment = Comment { id: "1".to_owned(), body: "hi".to_owned(), ..Comment::default() };
    let parts = RestIssueParts {
        issue: rest_issue(),
        issue_json: Value::Bool(true),
        issue_url: "u-issue".to_owned(),
        comments: vec![comment],
        comment_notices: vec![skip_notice("Reaction enrichment", "issue comment 1 reactions", "boom")],
        comments_json: Value::Null,
        comment_urls: vec!["u-c1".to_owned()],
        comment_reaction_urls: vec!["u-r1".to_owned()],
        timeline: vec![RestTimelineEvent {
            event: "labeled".to_owned(),
            actor: None,
            created_at: Some(at(5)),
            submitted_at: None,
            body: None,
            state: None,
            label: None,
            commit_id: None,
            sha: None,
            message: None,
            author: None,
            committer: None,
            rename: None,
            source: None,
            reviewed: None,
        }],
        timeline_json: Value::Null,
        timeline_urls: vec!["u-t".to_owned()],
        reactions: Err("network down".to_owned()),
    };
    let doc = rest_issue_document(&target(ResourceKind::Issue, 7), parts);
    assert_eq!(doc.kind, ResourceKind::Issue);
    assert_eq!(doc.title, "Fixture issue title");
    assert_eq!(doc.state, "open");
    assert_eq!(doc.body, "");
    assert_eq!(doc.labels[0].name, "bug");
    assert_eq!(doc.reactions.len(), 3);
    assert_eq!(doc.comments.len(), 1);
    assert_eq!(doc.timeline.len(), 1);
    assert!(doc.locked);
    let metadata = pairs(&doc.metadata);
    assert_eq!(metadata[4], pair("Reaction enrichment", "issue comment 1 reactions skipped: boom"));
    assert_eq!(
        metadata[5],
        pair("Reaction enrichment", "issue #7 top-level reactions skipped: network down")
    );
    let names: Vec<&str> = doc.raw_payloads.iter().map(|p| p.name.as_str()).collect();
    assert_eq!(names, vec!["rest.issue", "rest.issue_comments", "rest.issue_timeline"]);
    assert_eq!(doc.raw_payloads[1].request_urls, vec!["u-c1".to_owned(), "u-r1".to_owned()]);
    assert_eq!(doc.raw_payloads[0].request_urls, vec!["u-issue".to_owned()]);
}

fn payloads() -> RestPullRequestPayloads {
    RestPullRequestPayloads {
        pull_json: Value::Null,
        pull_url: "u-pull".to_owned(),
        issue_json: Value::Null,
        issue_url: "u-issue".to_owned(),
        comments_json: Value::Null,
        comment_urls: vec![],
        comment_reaction_urls: vec![],
        timeline_json: Value::Null,
        timeline_urls: vec![],
        reviews_json: Value::Null,
        review_urls: vec!["u-rv".to_owned()],
        review_reaction_urls: vec!["u-rvr".to_owned()],
        review_comments_json: Value::Null,
        review_comment_urls: vec![],
        review_comment_reaction_urls: vec![],
        files_json: Value::Null,
        file_urls: vec![],
        commits_json: Value::Null,
        commit_urls: vec![],
    }
}

fn pull_parts() -> RestPullRequestParts {
    RestPullRequestParts {
        pull: rest_pull(),
        issue: rest_issue(),
        comments: vec![],
        comment_notices: vec![],
        timeline: vec![],
        timeline_commits: vec![],
        reviews: vec![],
        review_notices: vec![],
        review_threads: vec![ReviewThread { id: "rest-thread".to_owned(), ..ReviewThread::default() }],
        review_comment_notices: vec![skip_notice("Reaction enrichment", "review comment 9 reactions", "x")],
        files: vec![],
        commits: vec![],
        commit_details: vec![],
        payloads: payloads(),
        checks: Ok((
            vec![CheckStatus { kind: "check".to_owned(), ..CheckStatus::default() }],
            vec![payload("rest.pull_request_combined_status"), payload("rest.pull_request_check_runs")],
        )),
        reactions: Ok(vec![Reaction { content: "rocket".to_owned(), count: 1, users: vec![] }]),
        graphql_threads: None,
    }
}

#[test]
fn rest_pull_request_document_collects_parts() {
    let doc = rest_pull_request_document(&target(ResourceKind::PullRequest, 11), pull_parts());
    assert_eq!(doc.kind, ResourceKind::PullRequest);
    assert_eq!(doc.body, "Support offline fixtures");
    assert_eq!(doc.mergeable_state.as_deref(), Some("clean"));
    assert_eq!(doc.base.as_ref().map(|b| b.ref_name.as_str()), Some("main"));
    assert_eq!(doc.head.as_ref().and_then(|b| b.sha.as_deref()), Some("h1"));
    assert_eq!(doc.requested_reviewers[0].login, "inspector");
    assert_eq!(doc.reactions[0].content, "rocket");
    assert_eq!(doc.checks.len(), 1);
    assert_eq!(doc.review_threads[0].id, "rest-thread");
    let names: Vec<&str> = doc.raw_payloads.iter().map(|p| p.name.as_str()).collect();
    assert_eq!(
        names,
        vec![
            "rest.pull_request_combined_status",
            "rest.pull_request_check_runs",
            "rest.pull_request",
            "rest.pull_request_issue",
            "rest.pull_request_issue_comments",
            "rest.pull_request_timeline",
            "rest.pull_request_reviews",
            "rest.pull_request_review_comments",
            "rest.pull_request_files",
            "rest.pull_request_commits",
        ]
    );
    assert_eq!(doc.raw_payloads[6].request_urls, vec!["u-rv".to_owned(), "u-rvr".to_owned()]);
    let metadata = pairs(&doc.metadata);
    assert_eq!(
        metadata.last(),
        Some(&pair("Reaction enrichment", "review comment 9 reactions skipped: x"))
    );
    assert_eq!(head_sha(&doc).as_deref(), Some("h1"));
}

#[test]
fn graphql_review_threads_replace_rest_ones_and_their_notices() {
    let mut parts = pull_parts();
    parts.checks = Err("offline".to_owned());
    parts.reactions = Err("nope".to_owned());
    parts.graphql_threads = Some(Ok((
        vec![ReviewThread { id: "gql-thread".to_owned(), ..ReviewThread::default() }],
        payload("graphql.pull_request_review_threads"),
    )));
    let doc = rest_pull_request_document(&target(ResourceKind::PullRequest, 11), parts);
    assert_eq!(doc.review_threads[0].id, "gql-thread");
    assert!(doc.checks.is_empty());
    assert_eq!(doc.reactions.len(), 3);
    let metadata = pairs(&doc.metadata);
    assert!(metadata.contains(&pair("Checks enrichment", "pull request #11 checks skipped: offline")));
    assert_eq!(
        metadata.last(),
        Some(&pair("Reaction enrichment", "pull request #11 top-level reactions skipped: nope"))
    );
    assert_eq!(doc.raw_payloads[0].name, "graphql.pull_request_review_threads");
    assert_eq!(doc.raw_payloads.len(), 9);

    let mut failing = pull_parts();
    failing.graphql_threads = Some(Err("denied".to_owned()));
    let doc = rest_pull_request_document(&target(ResourceKind::PullRequest, 11), failing);
    let metadata = pairs(&doc.metadata);
    let n = metadata.len();
    assert_eq!(metadata[n - 2], pair("GraphQL enrichment", "review thread enrichment skipped: denied"));
    assert_eq!(doc.review_threads[0].id, "rest-thread");
}

#[test]
fn checks_list_statuses_then_runs() {
    let combined = RestCombinedStatus {
        statuses: vec![RestCommitStatus {
            context: None,
            state: "success".to_owned(),
            target_url: Some("https://ci/1".to_owned()),
            description: Some("ok".to_owned()),
        }],
    };
    let runs = RestCheckRunsResponse {
        check_runs: vec![RestCheckRun {
            name: "build".to_owned(),
            status: "completed".to_owned(),
            conclusion: Some("failure".to_owned()),
            details_url: None,
            html_url: Some("https://github.com/run/2".to_owned()),
            app: Some(RestCheckRunApp { name: "GitHub Actions".to_owned() }),
        }],
    };
    let checks = build_checks(&combined, &runs);
    assert_eq!(checks.len(), 2);
    assert_eq!(checks[0].kind, "status");
    assert_eq!(checks[0].name, "status");
    assert_eq!(checks[0].conclusion, None);
    assert_eq!(checks[1].kind, "check");
    assert_eq!(checks[1].url.as_deref(), Some("https://github.com/run/2"));
    assert_eq!(checks[1].description.as_deref(), Some("App: GitHub Actions"));
}

fn gql_actor(login: &str) -> GraphQlActor {
    GraphQlActor { login: login.to_owned(), url: Some(format!("https://github.com/{login}")) }
}

fn page(has_next_page: bool, cursor: Option<&str>) -> GraphQlPageInfo {
    GraphQlPageInfo { has_next_page, end_cursor: cursor.map(str::to_owned) }
}

fn gql_comment(id: &str) -> GraphQlIssueComment {
    GraphQlIssueComment {
        id: id.to_owned(),
        url: format!("https://github.com/c/{id}"),
        body: "text".to_owned(),
        author: Some(gql_actor("commenter")),
        author_association: None,
        created_at: at(1),
        updated_at: at(2),
        reaction_groups: None,
    }
}

fn gql_issue() -> GraphQlIssue {
    GraphQlIssue {
        id: "I_1".to_owned(),
        number: 7,
        title: "GraphQL issue".to_owned(),
        url: "https://github.com/acme/widgets/issues/7".to_owned(),
        body: "Body".to_owned(),
        state: "OPEN".to_owned(),
        state_reason: None,
        author: Some(gql_actor("author")),
        author_association: Some("MEMBER".to_owned()),
        created_at: at(1),
        updated_at: at(2),
        closed_at: None,
        locked: false,
        active_lock_reason: Some("spam".to_owned()),
        milestone: None,
        labels: GraphQlLabelConnection {
            nodes: vec![GraphQlLabel { name: "bug".to_owned(), color: None, description: None }],
        },
        assignees: GraphQlActorConnection { nodes: vec![gql_actor("assignee")] },
        reaction_groups: None,
        comments: GraphQlIssueCommentConnection { page_info: page(false, None), nodes: vec![] },
    }
}

#[test]
fn graphql_issue_document_counts_all_comments() {
    let request = graphql_request("query", &Value::Null);
    let parts = GraphQlIssueParts {
        issue: gql_issue(),
        comments: vec![gql_comment("c1"), gql_comment("c2")],
        issue_json: Value::Null,
        comments_json: Value::Null,
        graphql_url: "https://api.github.com/graphql".to_owned(),
        issue_request: request.clone(),
        request_urls: vec!["https://api.github.com/graphql".to_owned(); 2],
        graphql_requests: vec![request.clone(), request],
    };
    let doc = graphql_issue_document("acme", "widgets", 7, parts);
    assert_eq!(doc.state, "open");
    assert_eq!(doc.comments.len(), 2);
    assert_eq!(doc.comments[1].id, "c2");
    assert_eq!(doc.assignees[0].login, "assignee");
    assert_eq!(
        pairs(&doc.metadata),
        vec![pair("Comments", "2"), pair("Locked", "false"), pair("Lock reason", "spam")]
    );
    assert_eq!(doc.raw_payloads[0].name, "graphql.issue");
    assert_eq!(doc.raw_payloads[0].graphql_requests.len(), 1);
    assert_eq!(doc.raw_payloads[1].graphql_requests.len(), 2);
    assert!(doc.timeline.is_empty());
}

#[test]
fn finishing_a_graphql_issue_adds_its_timeline_or_a_notice() {
    let base = || {
        graphql_issue_document(
            "acme",
            "widgets",
            7,
            GraphQlIssueParts {
                issue: gql_issue(),
                comments: vec![],
                issue_json: Value::Null,
                comments_json: Value::Null,
                graphql_url: "g".to_owned(),
                issue_request: RawGraphQlRequest::default(),
                request_urls: vec![],
                graphql_requests: vec![],
            },
        )
    };
    let mut failed = base();
    finish_graphql_issue(&mut failed, Err("rate limited".to_owned()));
    assert_eq!(
        pairs(&failed.metadata).last(),
        Some(&pair("Timeline enrichment", "issue #7 timeline skipped: rate limited"))
    );
    let mut done = base();
    finish_graphql_issue(&mut done, Ok((vec![], Value::Null, vec!["t".to_owned()])));
    assert_eq!(done.raw_payloads.last().map(|p| p.name.as_str()), Some("rest.issue_timeline"));
    assert_eq!(done.metadata.len(), 3);
}

fn gql_pull() -> GraphQlPullRequest {
    GraphQlPullRequest {
        id: "PR_1".to_owned(),
        number: 11,
        title: "GraphQL pull".to_owned(),
        url: "https://github.com/acme/widgets/pull/11".to_owned(),
        body: "Body".to_owned(),
        state: "MERGED".to_owned(),
        is_draft: true,
        merged: true,
        merged_at: None,
        merged_by: Some(gql_actor("merger")),
        mergeable: "UNKNOWN".to_owned(),
        author: None,
        author_association: None,
        created_at: at(1),
        updated_at: at(2),
        closed_at: None,
        labels: GraphQlLabelConnection { nodes: vec![] },
        assignees: GraphQlActorConnection { nodes: vec![] },
        milestone: None,
        reaction_groups: None,
        comments: GraphQlIssueCommentConnection { page_info: page(false, None), nodes: vec![] },
        review_requests: GraphQlReviewRequestConnection {
            nodes: vec![
                GraphQlReviewRequest { requested_reviewer: Some(GraphQlReviewer::Team) },
                GraphQlReviewRequest { requested_reviewer: Some(GraphQlReviewer::User(gql_actor("ana"))) },
                GraphQlReviewRequest { requested_reviewer: None },
            ],
        },
        reviews: GraphQlReviewConnection {
            nodes: vec![GraphQlReview {
                id: "R_1".to_owned(),
                url: "u".to_owned(),
                state: "APPROVED".to_owned(),
                body: "fine by me".to_owned(),
                author: None,
                author_association: None,
                submitted_at: None,
                commit: Some(GraphQlCommitRef { oid: "c0ffee".to_owned() }),
            }],
        },
        review_threads: GraphQlReviewThreadConnection { page_info: page(false, None), nodes: vec![] },
        commits: GraphQlCommitConnection { total_count: 4, nodes: vec![] },
        base_ref_name: "main".to_owned(),
        base_repository: Some(GraphQlRepoRef { name_with_owner: "acme/widgets".to_owned() }),
        head_ref_name: "topic".to_owned(),
        head_repository: None,
        additions: 1,
        deletions: 2,
        changed_files: 3,
        potential_merge_commit: Some(GraphQlCommitRef { oid: "abc".to_owned() }),
    }
}

#[test]
fn graphql_pull_request_document_keeps_only_requested_users() {
    let parts = GraphQlPullRequestParts {
        pull: gql_pull(),
        comments: vec![gql_comment("c1")],
        review_threads: vec![],
        files: vec![],
        pull_json: Value::Null,
        files_json: Value::Null,
        request_urls: vec![],
        graphql_requests: vec![],
        file_urls: vec![],
    };
    let mut doc = graphql_pull_request_document("acme", "widgets", 11, parts);
    assert_eq!(doc.state, "merged");
    assert_eq!(doc.requested_reviewers.len(), 1);
    assert_eq!(doc.requested_reviewers[0].login, "ana");
    assert_eq!(doc.reviews[0].state, "APPROVED");
    assert_eq!(doc.reviews[0].commit_id.as_deref(), Some("c0ffee"));
    assert!(!doc.draft);
    assert_eq!(
        pairs(&doc.metadata),
        vec![
            pair("Draft", "true"),
            pair("Merged", "true"),
            pair("Mergeable state", "unknown"),
            pair("Base", "acme/widgets:main"),
            pair("Head", ":topic"),
            pair("Commits", "4"),
            pair("Changed files", "3"),
            pair("Additions", "1"),
            pair("Deletions", "2"),
            pair("Merged by", "merger"),
            pair("Merge commit", "abc"),
        ]
    );
    assert_eq!(doc.raw_payloads[1].name, "rest.pull_request_files");
    assert_eq!(head_sha(&doc), None);
    finish_graphql_pull_request(&mut doc, Err("later".to_owned()), vec![], Some(Err("no checks".to_owned())));
    let metadata = pairs(&doc.metadata);
    let n = metadata.len();
    assert_eq!(metadata[n - 2], pair("Timeline enrichment", "pull request #11 timeline skipped: later"));
    assert_eq!(metadata[n - 1], pair("Checks enrichment", "pull request #11 checks skipped: no checks"));
    let _ = BranchRef::default();
    let _ = ExportDocument::default();
}

fn discussion_comment(id: &str, upvotes: i64, answer: bool) -> GraphQlDiscussionComment {
    GraphQlDiscussionComment {
        id: id.to_owned(),
        url: format!("https://github.com/d/{id}"),
        body: format!("body {id}"),
        created_at: at(1),
        updated_at: at(2),
        published_at: Some(at(1714298400)),
        author: None,
        author_association: None,
        is_answer: answer,
        upvote_count: upvotes,
        reaction_groups: None,
        replies: None,
    }
}

#[test]
fn discussion_documents_describe_category_and_answer() {
    let reply = discussion_comment_of(discussion_comment("r1", 0, false), vec![]);
    let comment = discussion_comment_of(discussion_comment("c1", 5, true), vec![reply]);
    assert_eq!(
        pairs(&comment.metadata),
        vec![pair("Upvotes", "5"), pair("Published", "2024-04-28T10:00:00+00:00")]
    );
    assert!(comment.is_answer);
    assert_eq!(comment.replies[0].id, "r1");
    let discussion = GraphQlDiscussion {
        id: "D_1".to_owned(),
        number: 329,
        title: "Fixture discussion".to_owned(),
        url: "https://github.com/acme/widgets/discussions/329".to_owned(),
        body: "Body".to_owned(),
        created_at: at(1),
        updated_at: at(2),
        closed: true,
        closed_at: Some(at(3)),
        locked: false,
        author: None,
        author_association: None,
        category: GraphQlDiscussionCategory { name: "Q&A".to_owned(), slug: "q-a".to_owned() },
        answer_chosen_at: None,
        answer_chosen_by: Some(gql_actor("maintainer")),
        labels: GraphQlLabelConnection { nodes: vec![] },
        reaction_groups: None,
        comments: GraphQlDiscussionCommentConnection { page_info: page(false, None), nodes: vec![] },
    };
    let doc = graphql_discussion_document(
        "acme",
        "widgets",
        329,
        GraphQlDiscussionParts {
            discussion,
            comments: vec![comment],
            discussion_json: Value::Null,
            comments_json: Value::Null,
            graphql_url: "g".to_owned(),
            discussion_request: RawGraphQlRequest::default(),
            comment_request_urls: vec![],
            comment_graphql_requests: vec![],
        },
    );
    assert_eq!(doc.kind, ResourceKind::Discussion);
    assert_eq!(doc.state, "closed");
    assert_eq!(
        pairs(&doc.metadata),
        vec![
            pair("Category", "Q&A"),
            pair("Category slug", "q-a"),
            pair("Closed", "true"),
            pair("Locked", "false"),
            pair("Comment count", "1"),
            pair("Answer chosen by", "maintainer"),
        ]
    );
    assert_eq!(doc.raw_payloads[0].name, "graphql.discussion");
    assert_eq!(doc.raw_payloads[1].name, "graphql.discussion_comments");
}

#[test]
fn pages_accumulate_until_the_last() {
    let mut items = vec![1, 2];
    assert_eq!(collect_page(&mut items, vec![3], page(true, Some("c2"))), Some(Some("c2".to_owned())));
    assert_eq!(collect_page(&mut items, vec![4, 5], page(false, None)), None);
    assert_eq!(items, vec![1, 2, 3, 4, 5]);
    assert_eq!(require_found(Some(Some(3)), "issue"), Ok(3));
    assert_eq!(require_found::<i32>(Some(None), "issue"), Err("issue not found".to_owned()));
    assert_eq!(require_found::<i32>(None, "issue"), Err("repository not found".to_owned()));
    let review = to_review(GraphQlReview {
        id: "R".to_owned(),
        url: "u".to_owned(),
        state: "COMMENTED".to_owned(),
        body: String::new(),
        author: None,
        author_association: None,
        submitted_at: None,
        commit: None,
    });
    assert!(review.reactions.is_empty());
}

#[test]
fn templates_see_when_a_pull_request_was_merged() {
    let doc = rest_pull_request_document(&target(ResourceKind::PullRequest, 11), pull_parts());
    let context = ghdump::template::document::TemplateContext::from_document(&doc);
    assert_eq!(context.merged_at.as_deref(), Some("2024-04-28T10:00:00+00:00"));

    let mut pull = gql_pull();
    pull.merged_at = Some(at(1714298400));
    let parts = GraphQlPullRequestParts {
        pull,
        comments: vec![],
        review_threads: vec![],
        files: vec![],
        pull_json: Value::Null,
        files_json: Value::Null,
        request_urls: vec![],
        graphql_requests: vec![],
        file_urls: vec![],
    };
    let doc = graphql_pull_request_document("acme", "widgets", 11, parts);
    let context = ghdump::template::document::TemplateContext::from_document(&doc);
    assert_eq!(context.merged_at.as_deref(), Some("2024-04-28T10:00:00+00:00"));
}

#[test]
fn check_and_thread_payloads_are_named_for_their_source() {
    let payloads = checks_payloads(
        Value::Bool(true),
        "https://api.github.com/repos/o/r/commits/abc/status".to_owned(),
        Value::Bool(false),
        "https://api.github.com/repos/o/r/commits/abc/check-runs".to_owned(),
    );
    assert_eq!(payloads.len(), 2);
    assert_eq!(payloads[0].name, "rest.pull_request_combined_status");
    assert_eq!(payloads[0].payload, Value::Bool(true));
    assert_eq!(payloads[0].request_urls, vec!["https://api.github.com/repos/o/r/commits/abc/status".to_owned()]);
    assert_eq!(payloads[1].name, "rest.pull_request_check_runs");
    assert_eq!(payloads[1].payload, Value::Bool(false));
    assert!(payloads[1].graphql_requests.is_empty());
    let threads = review_threads_payload(Value::Null, vec!["https://api.github.com/graphql".to_owned()], Vec::new());
    assert_eq!(threads.name, "graphql.pull_request_review_threads");
    assert_eq!(threads.request_urls.len(), 1);
}
