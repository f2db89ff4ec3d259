use ghdump::github::enrich::{
    attach_commit_files, attach_summary_files, committed_sha, enriched_timeline,
    timeline_commit_requests,
};
use ghdump::github::rest::{
    RestActor, RestCommit, RestGitCommit, RestPullRequestFile, RestTimelineCommitIdentity,
    RestTimelineEvent, RestTimelineLabel, RestTimelineRename, RestTimelineSource,
    RestTimelineSourceIssue,
};
use ghdump::github::timeline::to_timeline_entry;
use ghdump::model::{format_optional_datetime, CommitSummary, Timestamp};

fn event(kind: &str) -> RestTimelineEvent {
    RestTimelineEvent {
        event: kind.to_owned(),
        actor: None,
        created_at: None,
        submitted_at: None,
        body: None,
        state: None,
        label: None,
        commit_id: None,
        sha: None,
        message: None,
        author: None,
        committer: None,
        rename: None,
        source: None,
        reviewed: None,
    }
}

fn at(seconds: i64) -> Timestamp {
    Timestamp { seconds, nanos: 0 }
}

fn file(name: &str) -> RestPullRequestFile {
    RestPullRequestFile {
        sha: "f00".to_owned(),
        filename: name.to_owned(),
        status: "modified".to_owned(),
        additions: 3,
        deletions: 1,
        changes: 4,
        previous_filename: None,
        blob_url: None,
        patch: None,
    }
}

fn commit(sha: &str, files: Option<Vec<RestPullRequestFile>>) -> RestCommit {
    RestCommit {
        sha: sha.to_owned(),
        html_url: None,
        author: None,
        commit: RestGitCommit { message: "msg".to_owned(), author: None },
        files,
    }
}

#[test]
fn committed_timeline_event_uses_sha_message_and_author_date() {
    let mut event = event("committed");
    event.sha = Some("1a50928ab60d17848aa8bd427334033c0fac1c5f".to_owned());
    event.message = Some("gitbutler: migrate from fetcherVersion = 2 to fetcherVersion = 3".to_owned());
    event.author = Some(RestTimelineCommitIdentity {
        name: Some("Aliaksandr".to_owned()),
        email: Some("aliaksandr@example.org".to_owned()),
        date: Some(at(1777302972)),
    });

    let entry = to_timeline_entry(&event);

    assert_eq!(entry.event_type, "committed");
    assert_eq!(
        format_optional_datetime(entry.created_at),
        Some("2026-04-27T15:16:12+00:00".to_owned())
    );
    assert_eq!(
        entry.body.as_deref(),
        Some("gitbutler: migrate from fetcherVersion = 2 to fetcherVersion = 3")
    );
    assert!(entry.details.iter().any(|field| {
        field.name == "Commit" && field.value == "1a50928ab60d17848aa8bd427334033c0fac1c5f"
    }));
    let commit_author = entry.commit_author.as_ref().expect("commit author should be present");
    assert_eq!(commit_author.name.as_deref(), Some("Aliaksandr"));
    assert_eq!(commit_author.email.as_deref(), Some("aliaksandr@example.org"));
}

#[test]
fn timeline_details_come_in_a_fixed_order() {
    let mut e = event("renamed");
    e.reviewed = Some("APPROVED".to_owned());
    e.rename = Some(RestTimelineRename { from: "Old".to_owned(), to: "New".to_owned() });
    e.commit_id = Some("abc".to_owned());
    e.sha = Some("ignored".to_owned());
    e.label = Some(RestTimelineLabel { name: "bug".to_owned() });
    e.state = Some("CLOSED".to_owned());
    let entry = to_timeline_entry(&e);
    let details: Vec<(String, String)> =
        entry.details.iter().map(|f| (f.name.clone(), f.value.clone())).collect();
    assert_eq!(
        details,
        vec![
            ("State".to_owned(), "closed".to_owned()),
            ("Label".to_owned(), "bug".to_owned()),
            ("Commit".to_owned(), "abc".to_owned()),
            ("From".to_owned(), "Old".to_owned()),
            ("To".to_owned(), "New".to_owned()),
            ("Review state".to_owned(), "approved".to_owned()),
        ]
    );
    assert!(entry.files.is_empty());
}

#[test]
fn timeline_time_falls_back_in_order() {
    let mut e = event("reviewed");
    e.committer = Some(RestTimelineCommitIdentity { name: None, email: None, date: Some(at(40)) });
    assert_eq!(to_timeline_entry(&e).created_at, Some(at(40)));
    e.author = Some(RestTimelineCommitIdentity { name: None, email: None, date: Some(at(30)) });
    assert_eq!(to_timeline_entry(&e).created_at, Some(at(30)));
    e.submitted_at = Some(at(20));
    assert_eq!(to_timeline_entry(&e).created_at, Some(at(20)));
    e.created_at = Some(at(10));
    assert_eq!(to_timeline_entry(&e).created_at, Some(at(10)));
}

#[test]
fn timeline_body_prefers_the_body_to_the_message() {
    let mut e = event("commented");
    e.message = Some("message".to_owned());
    assert_eq!(to_timeline_entry(&e).body.as_deref(), Some("message"));
    e.body = Some("body".to_owned());
    assert_eq!(to_timeline_entry(&e).body.as_deref(), Some("body"));
}

#[test]
fn timeline_keeps_actor_and_source_issue() {
    let mut e = event("cross-referenced");
    e.actor = Some(RestActor { login: "hubot".to_owned(), html_url: None });
    e.source = Some(RestTimelineSource {
        issue: Some(RestTimelineSourceIssue {
            number: 5,
            title: "Elsewhere".to_owned(),
            html_url: Some("https://github.com/a/b/issues/5".to_owned()),
        }),
    });
    let entry = to_timeline_entry(&e);
    assert_eq!(entry.actor.as_ref().map(|a| a.login.as_str()), Some("hubot"));
    let source = entry.source_issue.expect("source issue");
    assert_eq!(source.number, 5);
    assert_eq!(source.title, "Elsewhere");
    assert!(entry.commit_author.is_none());
}

#[test]
fn only_committed_entries_ask_for_their_commit() {
    let mut committed = event("committed");
    committed.sha = Some("aaa".to_owned());
    let mut labeled = event("labeled");
    labeled.commit_id = Some("bbb".to_owned());
    let timeline = vec![
        to_timeline_entry(&labeled),
        to_timeline_entry(&committed),
        to_timeline_entry(&event("committed")),
    ];
    assert_eq!(committed_sha(&timeline[1]).as_deref(), Some("aaa"));
    assert_eq!(committed_sha(&timeline[0]), None);
    assert_eq!(timeline_commit_requests(&timeline), vec![(1, "aaa".to_owned())]);
}

#[test]
fn committed_entries_get_the_files_of_their_commit() {
    let mut committed = event("committed");
    committed.sha = Some("aaa".to_owned());
    let mut other = event("labeled");
    other.commit_id = Some("bbb".to_owned());
    let events = vec![committed, other];
    let fetched = vec![
        Some(commit("aaa", Some(vec![file("src/a.rs")]))),
        Some(commit("bbb", Some(vec![file("src/b.rs")]))),
    ];
    let timeline = enriched_timeline(&events, fetched);
    assert_eq!(timeline[0].files.len(), 1);
    assert_eq!(timeline[0].files[0].path, "src/a.rs");
    assert!(timeline[1].files.is_empty());

    let mut entry = to_timeline_entry(&events[0]);
    attach_commit_files(&mut entry, Some(&commit("aaa", None)));
    assert!(entry.files.is_empty());
    attach_commit_files(&mut entry, None);
    assert!(entry.files.is_empty());
}

#[test]
fn commit_summaries_take_the_fetched_files() {
    let mut summary = CommitSummary {
        sha: "aaa".to_owned(),
        message: "msg".to_owned(),
        ..CommitSummary::default()
    };
    attach_summary_files(&mut summary, Some(&commit("aaa", Some(vec![file("x"), file("y")]))));
    assert_eq!(summary.files.len(), 2);
    attach_summary_files(&mut summary, None);
    assert_eq!(summary.files.len(), 2);
    attach_summary_files(&mut summary, Some(&commit("aaa", None)));
    assert!(summary.files.is_empty());
    assert_eq!(summary.sha, "aaa");
}
