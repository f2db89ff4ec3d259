use vstd::prelude::*;

use crate::model::Timestamp;

verus! {

#[derive(Clone, Debug)]
pub struct RestActor {
    pub login: String,
    pub html_url: Option<String>,
}

#[derive(Clone, Debug)]
pub struct RestLabel {
    pub name: String,
    pub color: Option<String>,
    pub description: Option<String>,
}

/// The per-content reaction counts that the REST API reports on an issue, comment or review.
#[derive(Clone, Debug)]
pub struct RestReactions {
    pub plus_one: u64,
    pub minus_one: u64,
    pub laugh: u64,
    pub hooray: u64,
    pub confused: u64,
    pub heart: u64,
    pub rocket: u64,
    pub eyes: u64,
}

#[derive(Clone, Debug)]
pub struct RestReaction {
    pub content: String,
    pub user: Option<RestActor>,
}

#[derive(Clone, Debug)]
pub struct RestMilestone {
    pub title: String,
    pub state: Option<String>,
    pub due_on: Option<Timestamp>,
    pub html_url: Option<String>,
}

#[derive(Clone, Debug)]
pub struct RestIssue {
    pub html_url: String,
    pub title: String,
    pub body: Option<String>,
    pub state: String,
    pub state_reason: Option<String>,
    pub user: Option<RestActor>,
    pub author_association: Option<String>,
    pub labels: Vec<RestLabel>,
    pub assignees: Vec<RestActor>,
    pub comments: u64,
    pub created_at: Timestamp,
    pub updated_at: Timestamp,
    pub closed_at: Option<Timestamp>,
    pub milestone: Option<RestMilestone>,
    pub reactions: Option<RestReactions>,
    pub locked: bool,
    pub active_lock_reason: Option<String>,
}

#[derive(Clone, Debug)]
pub struct RestIssueComment {
    pub id: u64,
    pub html_url: String,
    pub body: Option<String>,
    pub user: Option<RestActor>,
    pub author_association: Option<String>,
    pub created_at: Timestamp,
    pub updated_at: Timestamp,
    pub reactions: Option<RestReactions>,
}

#[derive(Clone, Debug)]
pub struct RestTimelineLabel {
    pub name: String,
}

#[derive(Clone, Debug)]
pub struct RestTimelineRename {
    pub from: String,
    pub to: String,
}

#[derive(Clone, Debug)]
pub struct RestTimelineSourceIssue {
    pub number: u64,
    pub title: String,
    pub html_url: Option<String>,
}

#[derive(Clone, Debug)]
pub struct RestTimelineSource {
    pub issue: Option<RestTimelineSourceIssue>,
}

#[derive(Clone, Debug)]
pub struct RestTimelineCommitIdentity {
    pub name: Option<String>,
    pub email: Option<String>,
    pub date: Option<Timestamp>,
}

#[derive(Clone, Debug)]
pub struct RestTimelineEvent {
    pub event: String,
    pub actor: Option<RestActor>,
    pub created_at: Option<Timestamp>,
    pub submitted_at: Option<Timestamp>,
    pub body: Option<String>,
    pub state: Option<String>,
    pub label: Option<RestTimelineLabel>,
    pub commit_id: Option<String>,
    pub sha: Option<String>,
    pub message: Option<String>,
    pub author: Option<RestTimelineCommitIdentity>,
    pub committer: Option<RestTimelineCommitIdentity>,
    pub rename: Option<RestTimelineRename>,
    pub source: Option<RestTimelineSource>,
    pub reviewed: Option<String>,
}

#[derive(Clone, Debug)]
pub struct RestRepoRef {
    pub full_name: String,
}

#[derive(Clone, Debug)]
pub struct RestBranchRef {
    pub ref_field: String,
    pub sha: String,
    pub repo: Option<RestRepoRef>,
}

#[derive(Clone, Debug)]
pub struct RestPullRequest {
    pub html_url: String,
    pub title: String,
    pub body: Option<String>,
    pub state: String,
    pub draft: bool,
    pub merged: Option<bool>,
    pub merged_at: Option<Timestamp>,
    pub merged_by: Option<RestActor>,
    pub user: Option<RestActor>,
    pub created_at: Timestamp,
    pub updated_at: Timestamp,
    pub closed_at: Option<Timestamp>,
    pub additions: i64,
    pub deletions: i64,
    pub changed_files: i64,
    pub commits: i64,
    pub mergeable_state: Option<String>,
    pub merge_commit_sha: Option<String>,
    pub base: RestBranchRef,
    pub head: RestBranchRef,
    pub requested_reviewers: Vec<RestActor>,
}

#[derive(Clone, Debug)]
pub struct RestPullRequestReview {
    pub id: u64,
    pub html_url: String,
    pub body: Option<String>,
    pub state: String,
    pub user: Option<RestActor>,
    pub author_association: Option<String>,
    pub submitted_at: Option<Timestamp>,
    pub commit_id: Option<String>,
    pub reactions: Option<RestReactions>,
}

#[derive(Clone, Debug)]
pub struct RestPullRequestComment {
    pub id: u64,
    pub html_url: String,
    pub body: Option<String>,
    pub user: Option<RestActor>,
    pub author_association: Option<String>,
    pub created_at: Timestamp,
    pub updated_at: Timestamp,
    pub path: String,
    pub line: Option<i64>,
    pub start_line: Option<i64>,
    pub diff_hunk: Option<String>,
    pub in_reply_to_id: Option<u64>,
    pub pull_request_review_id: Option<u64>,
    pub reactions: Option<RestReactions>,
}

#[derive(Clone, Debug)]
pub struct RestPullRequestFile {
    pub sha: String,
    pub filename: String,
    pub status: String,
    pub additions: i64,
    pub deletions: i64,
    pub changes: i64,
    pub previous_filename: Option<String>,
    pub blob_url: Option<String>,
    pub patch: Option<String>,
}

#[derive(Clone, Debug)]
pub struct RestGitCommitAuthor {
    pub name: String,
    pub date: Option<Timestamp>,
}

#[derive(Clone, Debug)]
pub struct RestGitCommit {
    pub message: String,
    pub author: Option<RestGitCommitAuthor>,
}

#[derive(Clone, Debug)]
pub struct RestCommit {
    pub sha: String,
    pub html_url: Option<String>,
    pub author: Option<RestActor>,
    pub commit: RestGitCommit,
    pub files: Option<Vec<RestPullRequestFile>>,
}

/// One commit status in the combined status of a commit.
#[derive(Clone, Debug)]
pub struct RestCommitStatus {
    pub context: Option<String>,
    pub state: String,
    pub target_url: Option<String>,
    pub description: Option<String>,
}

#[derive(Clone, Debug)]
pub struct RestCombinedStatus {
    pub statuses: Vec<RestCommitStatus>,
}

#[derive(Clone, Debug)]
pub struct RestCheckRunApp {
    pub name: String,
}

#[derive(Clone, Debug)]
pub struct RestCheckRun {
    pub name: String,
    pub status: String,
    pub conclusion: Option<String>,
    pub details_url: Option<String>,
    pub html_url: Option<String>,
    pub app: Option<RestCheckRunApp>,
}

#[derive(Clone, Debug)]
pub struct RestCheckRunsResponse {
    pub check_runs: Vec<RestCheckRun>,
}

} // verus!
