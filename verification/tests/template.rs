use ghdump::cli::ResourceKind;
use ghdump::model::{
    Actor, ChangedFile, Comment, CommitAuthor, CommitSummary, ExportDocument, Label,
    MetadataField, RawGraphQlRequest, RawPayload, Reaction, Review, ReviewComment, ReviewThread,
    TimelineEntry, Timestamp,
};
use ghdump::template::document::{comment_levels_fit_everywhere, TemplateContext};
use ghdump::template::{deduplicate_strings_preserve_order, ActorContext, RawPayloadContext};
use serde_json::Value;

fn object(key: &str, value: Value) -> Value {
    let mut map = serde_json::Map::new();
    map.insert(key.to_owned(), value);
    Value::Object(map)
}

fn sample_document() -> ExportDocument {
    let reply = Comment {
        id: "reply-1".to_owned(),
        url: "https://example.com/reply".to_owned(),
        author: Some(Actor {
            login: "reply-user".to_owned(),
            url: Some("https://github.com/reply-user".to_owned()),
        }),
        body: "Nested reply".to_owned(),
        reactions: vec![Reaction {
            content: "heart".to_owned(),
            count: 1,
            users: vec![Actor {
                login: "reply-user".to_owned(),
                url: Some("https://github.com/reply-user".to_owned()),
            }],
        }],
        ..Comment::default()
    };

    let comment = Comment {
        id: "comment-1".to_owned(),
        url: "https://example.com/comment".to_owned(),
        author: Some(Actor {
            login: "octocat".to_owned(),
            url: Some("https://github.com/octocat".to_owned()),
        }),
        author_association: Some("OWNER".to_owned()),
        body: "Top-level comment".to_owned(),
        metadata: vec![MetadataField { name: "Source".to_owned(), value: "Unit test".to_owned() }],
        reactions: vec![Reaction {
            content: "+1".to_owned(),
            count: 2,
            users: vec![Actor {
                login: "octocat".to_owned(),
                url: Some("https://github.com/octocat".to_owned()),
            }],
        }],
        replies: vec![reply],
        ..Comment::default()
    };

    let review_comment = ReviewComment {
        id: "review-comment-1".to_owned(),
        url: "https://example.com/review-comment".to_owned(),
        body: "Please rename this.".to_owned(),
        diff_hunk: Some("@@ -1 +1 @@".to_owned()),
        reactions: vec![Reaction {
            content: "eyes".to_owned(),
            count: 4,
            users: vec![Actor {
                login: "inspector".to_owned(),
                url: Some("https://github.com/inspector".to_owned()),
            }],
        }],
        ..ReviewComment::default()
    };

    let mut document = ExportDocument::default();
    document.kind = ResourceKind::Issue;
    document.owner = "octocat".to_owned();
    document.repo = "Hello-World".to_owned();
    document.number = 42;
    document.title = "Improve export templates".to_owned();
    document.url = "https://github.com/octocat/Hello-World/issues/42".to_owned();
    document.state = "open".to_owned();
    document.body = "Main body".to_owned();
    document.labels = vec![
        Label { name: "bug".to_owned(), ..Label::default() },
        Label { name: "enhancement".to_owned(), ..Label::default() },
    ];
    document.metadata = vec![
        MetadataField { name: "Comments".to_owned(), value: "1".to_owned() },
        MetadataField { name: "Merged at".to_owned(), value: "2024-04-28T10:00:00Z".to_owned() },
    ];
    document.reactions = vec![
        Reaction {
            content: "+1".to_owned(),
            count: 2,
            users: vec![Actor {
                login: "octocat".to_owned(),
                url: Some("https://github.com/octocat".to_owned()),
            }],
        },
        Reaction {
            content: "rocket".to_owned(),
            count: 1,
            users: vec![Actor {
                login: "hubot".to_owned(),
                url: Some("https://github.com/hubot".to_owned()),
            }],
        },
    ];
    document.comments = vec![comment];
    document.reviews = vec![Review {
        id: "review-1".to_owned(),
        url: "https://example.com/review".to_owned(),
        state: "COMMENTED".to_owned(),
        body: "Review body".to_owned(),
        ..Review::default()
    }];
    document.review_threads = vec![ReviewThread {
        id: "thread-1".to_owned(),
        comments: vec![review_comment],
        ..ReviewThread::default()
    }];
    document.raw_payloads = vec![RawPayload {
        name: "rest.issue".to_owned(),
        payload: object("number", Value::from(42)),
        request_urls: vec!["https://api.github.com/repos/octocat/Hello-World/issues/42".to_owned()],
        graphql_requests: vec![RawGraphQlRequest {
            query: "query Issue($number: Int!) { issue(number: $number) { id } }".to_owned(),
            variables: object("number", Value::from(42)),
        }],
    }];
    document.commits = vec![CommitSummary {
        sha: "abc1234".to_owned(),
        message: "Add feature".to_owned(),
        files: vec![ChangedFile {
            sha: "def5678".to_owned(),
            path: "src/lib.rs".to_owned(),
            status: "added".to_owned(),
            ..ChangedFile::default()
        }],
        ..CommitSummary::default()
    }];
    document
}

/// The sections that a dump of the context shows. Derived display values (a header, a kind
/// label, pretty-printed JSON) are no fields of the context, which the type itself ensures.
#[test]
fn template_context_holds_expected_sections() {
    let document = sample_document();
    assert!(comment_levels_fit_everywhere(&document));
    let context = TemplateContext::from_document(&document);

    assert_eq!(context.kind, "issue");
    assert_eq!(context.owner, "octocat");
    assert_eq!(context.repo, "Hello-World");
    assert_eq!(context.title, "Improve export templates");
    assert_eq!(context.merged_at.as_deref(), Some("2024-04-28T10:00:00Z"));
    assert_eq!(context.commits[0].sha, "abc1234");
    assert_eq!(context.commits[0].files[0].path, "src/lib.rs");
    assert_eq!(context.labels.len(), 2);
    assert!(!context.draft);
    assert!(context.checks.is_empty());
    assert!(context.base.is_none());
}

#[test]
fn comments_are_numbered_and_nested_one_level_deeper() {
    let context = TemplateContext::from_document(&sample_document());
    let comment = &context.comments[0];
    assert_eq!((comment.level, comment.ordinal), (3, 1));
    assert_eq!(comment.metadata[0].name, "Source");
    let reply = &comment.replies[0];
    assert_eq!((reply.level, reply.ordinal), (4, 1));
    assert_eq!(reply.author.as_ref().map(|a| a.login.as_str()), Some("reply-user"));
    assert_eq!(context.review_threads[0].ordinal, 1);
    assert_eq!(context.review_threads[0].comments[0].reactions[0].count, 4);
    assert_eq!(context.reviews[0].state, "COMMENTED");
    assert_eq!(context.raw_payloads[0].request_count, 1);
    assert_eq!(context.raw_payloads[0].graphql_requests.len(), 1);
}

#[test]
fn deduplicates_request_urls_in_template_context() {
    let payload = RawPayload {
        name: "graphql.discussion_comments".to_owned(),
        payload: object("ok", Value::Bool(true)),
        request_urls: vec![
            "https://api.github.com/graphql".to_owned(),
            "https://api.github.com/graphql".to_owned(),
            "https://api.github.com/graphql".to_owned(),
        ],
        graphql_requests: vec![RawGraphQlRequest {
            query: "query Test { viewer { login } }".to_owned(),
            variables: Value::Object(serde_json::Map::new()),
        }],
    };

    let context = RawPayloadContext::from_raw_payload(&payload);

    assert_eq!(context.request_count, 3);
    assert_eq!(context.request_urls, vec!["https://api.github.com/graphql".to_owned()]);
}

#[test]
fn deduplication_keeps_first_occurrences_in_order() {
    let values: Vec<String> = ["b", "a", "b", "c", "a"].iter().map(|s| s.to_string()).collect();
    assert_eq!(deduplicate_strings_preserve_order(&values), vec!["b", "a", "c"]);
    let once = deduplicate_strings_preserve_order(&values);
    assert_eq!(deduplicate_strings_preserve_order(&once), once);
    assert!(deduplicate_strings_preserve_order(&Vec::new()).is_empty());
}

#[test]
fn commit_authors_are_named_by_name_then_email() {
    let both = CommitAuthor { name: Some("Ann".to_owned()), email: Some("ann@x".to_owned()) };
    let actor = ActorContext::from_commit_author(Some(&both)).expect("named");
    assert_eq!(actor.login, "Ann");
    assert_eq!(actor.email.as_deref(), Some("ann@x"));
    let email_only = CommitAuthor { name: None, email: Some("bob@x".to_owned()) };
    assert_eq!(ActorContext::from_commit_author(Some(&email_only)).map(|a| a.login), Some("bob@x".to_owned()));
    let neither = CommitAuthor { name: None, email: None };
    assert!(ActorContext::from_commit_author(Some(&neither)).is_none());
    assert!(ActorContext::from_commit_author(None).is_none());
}

#[test]
fn timeline_context_formats_times() {
    let mut document = ExportDocument::default();
    document.timeline = vec![TimelineEntry {
        event_type: "closed".to_owned(),
        created_at: Some(Timestamp { seconds: 1714298400, nanos: 0 }),
        ..TimelineEntry::default()
    }];
    document.created_at = Some(Timestamp { seconds: 0, nanos: 0 });
    let context = TemplateContext::from_document(&document);
    assert_eq!(context.timeline[0].created_at.as_deref(), Some("2024-04-28T10:00:00+00:00"));
    assert_eq!(context.created_at.as_deref(), Some("1970-01-01T00:00:00+00:00"));
    assert_eq!(context.merged_at, None);
}
