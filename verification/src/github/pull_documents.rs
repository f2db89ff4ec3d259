use vstd::prelude::*;

use crate::cli::{ResolvedTarget, ResourceKind};
use crate::model::{
    BranchRef, CheckStatus, Comment, ExportDocument, MetadataField, RawPayload,
    Reaction, Review, ReviewThread,
};
use crate::text::{copy_opt, lowercase, to_lowercase};

use super::documents::{
    concat_urls, extend_fields, is_rest_payload, labels_of, numbered, numbered_subject,
    outcome_notice, rest_payload, settle_reactions, skip_notice, skip_text,
};
use super::enrich::{enriched_commits, enriched_timeline, fetched_at, is_enriched_entry_of, is_enriched_summary_of};
use super::rest::{RestBranchRef, RestCommit, RestIssue, RestPullRequest, RestPullRequestFile, RestTimelineEvent};
use super::{
    actors_of, are_changed_files_of, branch_repo, counted_reactions, field_views,
    is_milestone_of, is_opt_actor_of, opt_lowercase, opt_view, pull_request_metadata,
    pull_request_metadata_spec, text_or_empty, to_changed_files, to_milestone,
};

verus! {

/// What was fetched over REST to export a pull request, with its comments, reviews and
/// review threads already rendered, and the outcomes of the enrichment requests.
pub struct RestPullRequestParts {
    pub pull: RestPullRequest,
    pub issue: RestIssue,
    pub comments: Vec<Comment>,
    pub comment_notices: Vec<MetadataField>,
    pub timeline: Vec<RestTimelineEvent>,
    /// For each timeline event, the commit fetched for it, where one was.
    pub timeline_commits: Vec<Option<RestCommit>>,
    pub reviews: Vec<Review>,
    pub review_notices: Vec<MetadataField>,
    pub review_threads: Vec<ReviewThread>,
    pub review_comment_notices: Vec<MetadataField>,
    pub files: Vec<RestPullRequestFile>,
    pub commits: Vec<RestCommit>,
    /// For each commit, the commit fetched again with its files, where that succeeded.
    pub commit_details: Vec<Option<RestCommit>>,
    /// The raw REST responses and the URLs they came from.
    pub payloads: RestPullRequestPayloads,
    /// The checks of the head commit and their raw payloads, or why they are missing.
    pub checks: Result<(Vec<CheckStatus>, Vec<RawPayload>), String>,
    /// The listing of the pull request's own reactions, or why it failed.
    pub reactions: Result<Vec<Reaction>, String>,
    /// Where a token is available, the review threads fetched over GraphQL with their raw
    /// payload, or why that failed.
    pub graphql_threads: Option<Result<(Vec<ReviewThread>, RawPayload), String>>,
}

/// The raw REST responses of a pull request export and the URLs they came from.
pub struct RestPullRequestPayloads {
    pub pull_json: serde_json::Value,
    pub pull_url: String,
    pub issue_json: serde_json::Value,
    pub issue_url: String,
    pub comments_json: serde_json::Value,
    pub comment_urls: Vec<String>,
    pub comment_reaction_urls: Vec<String>,
    pub timeline_json: serde_json::Value,
    pub timeline_urls: Vec<String>,
    pub reviews_json: serde_json::Value,
    pub review_urls: Vec<String>,
    pub review_reaction_urls: Vec<String>,
    pub review_comments_json: serde_json::Value,
    pub review_comment_urls: Vec<String>,
    pub review_comment_reaction_urls: Vec<String>,
    pub files_json: serde_json::Value,
    pub file_urls: Vec<String>,
    pub commits_json: serde_json::Value,
    pub commit_urls: Vec<String>,
}

/// Whether the review threads built from REST review comments are kept: unless GraphQL
/// gave some.
pub open spec fn keeps_rest_threads(g: Option<Result<(Vec<ReviewThread>, RawPayload), String>>) -> bool {
    match g {
        Some(Ok((threads, _))) => threads@.len() == 0,
        _ => true,
    }
}

/// The notice for review threads that GraphQL could not give.
pub open spec fn thread_notice(g: Option<Result<(Vec<ReviewThread>, RawPayload), String>>) -> Seq<(Seq<char>, Seq<char>)> {
    match g {
        Some(Err(e)) => seq![("GraphQL enrichment"@, skip_text("review thread enrichment"@, e@))],
        _ => Seq::empty(),
    }
}

/// The metadata of a pull request exported over REST: that of the pull request and its
/// issue, a notice for missing checks, the notices of its comments and reviews, a notice
/// for its own reactions, a notice for GraphQL review threads, and the notices of its
/// review comments where the REST review threads are kept.
pub open spec fn rest_pull_request_metadata(target: ResolvedTarget, p: RestPullRequestParts) -> Seq<(Seq<char>, Seq<char>)> {
    pull_request_metadata_spec(p.pull, p.issue) + outcome_notice(
        p.checks,
        "Checks enrichment"@,
        numbered("pull request #"@, target.number) + " checks"@,
    ) + field_views(p.comment_notices@) + field_views(p.review_notices@) + outcome_notice(
        p.reactions,
        "Reaction enrichment"@,
        numbered("pull request #"@, target.number) + " top-level reactions"@,
    ) + thread_notice(p.graphql_threads) + if keeps_rest_threads(p.graphql_threads) {
        field_views(p.review_comment_notices@)
    } else {
        Seq::empty()
    }
}

/// The raw payloads that come before the REST ones: those of the checks, then that of the
/// GraphQL review threads.
pub open spec fn leading_payloads(p: RestPullRequestParts) -> Seq<RawPayload> {
    let checks = match p.checks {
        Ok((_, ps)) => ps@,
        Err(_) => Seq::empty(),
    };
    match p.graphql_threads {
        Some(Ok((_, payload))) => checks.push(payload),
        _ => checks,
    }
}

/// The REST payloads of a pull request, in order.
pub open spec fn are_rest_pull_request_payloads(ps: Seq<RawPayload>, p: RestPullRequestPayloads) -> bool {
    &&& ps.len() == 8
    &&& is_rest_payload(ps[0], "rest.pull_request"@, p.pull_json, seq![p.pull_url])
    &&& is_rest_payload(ps[1], "rest.pull_request_issue"@, p.issue_json, seq![p.issue_url])
    &&& is_rest_payload(
        ps[2],
        "rest.pull_request_issue_comments"@,
        p.comments_json,
        p.comment_urls@ + p.comment_reaction_urls@,
    )
    &&& is_rest_payload(ps[3], "rest.pull_request_timeline"@, p.timeline_json, p.timeline_urls@)
    &&& is_rest_payload(ps[4], "rest.pull_request_reviews"@, p.reviews_json, p.review_urls@ + p.review_reaction_urls@)
    &&& is_rest_payload(
        ps[5],
        "rest.pull_request_review_comments"@,
        p.review_comments_json,
        p.review_comment_urls@ + p.review_comment_reaction_urls@,
    )
    &&& is_rest_payload(ps[6], "rest.pull_request_files"@, p.files_json, p.file_urls@)
    &&& is_rest_payload(ps[7], "rest.pull_request_commits"@, p.commits_json, p.commit_urls@)
}

/// `b` is the model branch for the REST branch `r`.
pub open spec fn is_branch_of(b: Option<BranchRef>, r: RestBranchRef) -> bool {
    b matches Some(x) && x.ref_name == r.ref_field && x.sha == Some(r.sha) && opt_view(x.repo_full_name) == branch_repo(r)
}

/// The document exported over REST for a pull request.
pub open spec fn is_rest_pull_request_document(d: ExportDocument, target: ResolvedTarget, p: RestPullRequestParts) -> bool {
    &&& d.kind == ResourceKind::PullRequest
    &&& d.owner == target.owner && d.repo == target.repo && d.number == target.number
    &&& d.title == p.pull.title && d.url == p.pull.html_url
    &&& d.state@ == lowercase(p.pull.state@)
    &&& d.body@ == text_or_empty(p.pull.body)
    &&& d.draft == p.pull.draft
    &&& is_opt_actor_of(d.merged_by, p.pull.merged_by)
    &&& d.merge_commit_sha == p.pull.merge_commit_sha
    &&& opt_view(d.mergeable_state) == opt_lowercase(p.pull.mergeable_state)
    &&& is_branch_of(d.base, p.pull.base)
    &&& is_branch_of(d.head, p.pull.head)
    &&& is_opt_actor_of(d.author, p.pull.user)
    &&& d.author_association == p.issue.author_association
    &&& d.created_at == Some(p.pull.created_at)
    &&& d.updated_at == Some(p.pull.updated_at)
    &&& d.closed_at == p.pull.closed_at
    &&& d.state_reason == p.issue.state_reason
    &&& d.locked == p.issue.locked
    &&& d.active_lock_reason == p.issue.active_lock_reason
    &&& labels_of(d.labels@, p.issue.labels@)
    &&& actors_of(d.assignees@, p.issue.assignees@)
    &&& actors_of(d.requested_reviewers@, p.pull.requested_reviewers@)
    &&& match p.reactions {
        Ok(rs) => d.reactions == rs,
        Err(_) => counted_reactions(d.reactions@, p.issue.reactions),
    }
    &&& match p.issue.milestone {
        Some(m) => d.milestone matches Some(dm) && is_milestone_of(dm, m),
        None => d.milestone is None,
    }
    &&& field_views(d.metadata@) == rest_pull_request_metadata(target, p)
    &&& d.comments == p.comments
    &&& d.reviews == p.reviews
    &&& d.review_threads == match p.graphql_threads {
        Some(Ok((threads, _))) => if threads@.len() > 0 {
            threads
        } else {
            p.review_threads
        },
        _ => p.review_threads,
    }
    &&& d.timeline@.len() == p.timeline@.len()
    &&& forall|i: int|
        0 <= i < p.timeline@.len() ==> is_enriched_entry_of(
            #[trigger] d.timeline@[i],
            p.timeline@[i],
            fetched_at(p.timeline_commits@, i),
        )
    &&& are_changed_files_of(d.files@, p.files@)
    &&& d.commits@.len() == p.commits@.len()
    &&& forall|i: int|
        0 <= i < p.commits@.len() ==> is_enriched_summary_of(
            #[trigger] d.commits@[i],
            p.commits@[i],
            fetched_at(p.commit_details@, i),
        )
    &&& match p.checks {
        Ok((cs, _)) => d.checks == cs,
        Err(_) => d.checks@.len() == 0,
    }
    &&& d.raw_payloads@.len() == leading_payloads(p).len() + 8
    &&& d.raw_payloads@.take(leading_payloads(p).len() as int) == leading_payloads(p)
    &&& are_rest_pull_request_payloads(d.raw_payloads@.skip(leading_payloads(p).len() as int), p.payloads)
}

fn to_branch(branch: &RestBranchRef) -> (r: Option<BranchRef>)
    ensures
        is_branch_of(r, *branch),
{
    Some(
        BranchRef {
            ref_name: branch.ref_field.clone(),
            sha: Some(branch.sha.clone()),
            repo_full_name: match &branch.repo {
                Some(repo) => Some(repo.full_name.clone()),
                None => None,
            },
        },
    )
}

fn rest_pull_request_payloads(r: RestPullRequestPayloads) -> (v: Vec<RawPayload>)
    ensures
        are_rest_pull_request_payloads(v@, r),
{
    let ghost g = r;
    let RestPullRequestPayloads {
        pull_json,
        pull_url,
        issue_json,
        issue_url,
        comments_json,
        comment_urls,
        comment_reaction_urls,
        timeline_json,
        timeline_urls,
        reviews_json,
        review_urls,
        review_reaction_urls,
        review_comments_json,
        review_comment_urls,
        review_comment_reaction_urls,
        files_json,
        file_urls,
        commits_json,
        commit_urls,
    } = r;
    let mut v: Vec<RawPayload> = Vec::new();
    let mut pull_urls: Vec<String> = Vec::new();
    pull_urls.push(pull_url);
    let mut issue_urls: Vec<String> = Vec::new();
    issue_urls.push(issue_url);
    v.push(rest_payload("rest.pull_request", pull_json, pull_urls));
    v.push(rest_payload("rest.pull_request_issue", issue_json, issue_urls));
    v.push(
        rest_payload(
            "rest.pull_request_issue_comments",
            comments_json,
            concat_urls(comment_urls, comment_reaction_urls),
        ),
    );
    v.push(rest_payload("rest.pull_request_timeline", timeline_json, timeline_urls));
    v.push(
        rest_payload(
            "rest.pull_request_reviews",
            reviews_json,
            concat_urls(review_urls, review_reaction_urls),
        ),
    );
    v.push(
        rest_payload(
            "rest.pull_request_review_comments",
            review_comments_json,
            concat_urls(review_comment_urls, review_comment_reaction_urls),
        ),
    );
    v.push(rest_payload("rest.pull_request_files", files_json, file_urls));
    v.push(rest_payload("rest.pull_request_commits", commits_json, commit_urls));
    assert(seq![g.pull_url] =~= seq![g.pull_url]);
    v
}

/// The document for a pull request from what was fetched over REST.
#[verifier::rlimit(40)]
pub fn rest_pull_request_document(target: &ResolvedTarget, parts: RestPullRequestParts) -> (d: ExportDocument)
    ensures
        is_rest_pull_request_document(d, *target, parts),
        parts.pull.merged_at matches Some(t) ==> (crate::model::rfc3339_text(t.seconds, t.nanos) is Some
            <==> t.is_representable()),
{
    let ghost p = parts;
    let RestPullRequestParts {
        pull,
        issue,
        comments,
        comment_notices,
        timeline,
        timeline_commits,
        reviews,
        review_notices,
        review_threads,
        review_comment_notices,
        files,
        commits,
        commit_details,
        payloads,
        checks,
        reactions,
        graphql_threads,
    } = parts;
    let mut metadata = pull_request_metadata(&pull, &issue);
    let mut raw_payloads: Vec<RawPayload> = Vec::new();
    let check_list = match checks {
        Ok((cs, ps)) => {
            let mut ps = ps;
            raw_payloads.append(&mut ps);
            cs
        },
        Err(e) => {
            let subject = numbered_subject("pull request #", target.number, " checks");
            metadata.push(skip_notice("Checks enrichment", subject.as_str(), e.as_str()));
            Vec::new()
        },
    };
    proof {
        assert(field_views(metadata@) =~= pull_request_metadata_spec(p.pull, p.issue) + outcome_notice(
            p.checks,
            "Checks enrichment"@,
            numbered("pull request #"@, target.number) + " checks"@,
        ));
    }
    extend_fields(&mut metadata, comment_notices);
    extend_fields(&mut metadata, review_notices);
    let subject = numbered_subject("pull request #", target.number, " top-level reactions");
    let counted = super::opt_reactions(&issue.reactions);
    let reactions = settle_reactions(counted, reactions, "Reaction enrichment", subject.as_str(), &mut metadata);
    let ghost before_threads = field_views(metadata@);
    let mut threads = review_threads;
    let mut keep_rest = true;
    match graphql_threads {
        Some(Ok((found, payload))) => {
            if found.len() > 0 {
                threads = found;
                keep_rest = false;
            }
            raw_payloads.push(payload);
        },
        Some(Err(e)) => {
            metadata.push(skip_notice("GraphQL enrichment", "review thread enrichment", e.as_str()));
        },
        None => {},
    }
    proof {
        assert(field_views(metadata@) =~= before_threads + thread_notice(p.graphql_threads));
        assert(raw_payloads@ =~= leading_payloads(p));
    }
    if keep_rest {
        extend_fields(&mut metadata, review_comment_notices);
    } else {
        assert(field_views(metadata@) =~= field_views(metadata@) + Seq::<(Seq<char>, Seq<char>)>::empty());
    }
    let ghost leading = raw_payloads@;
    let mut rest = rest_pull_request_payloads(payloads);
    let ghost rest_view = rest@;
    raw_payloads.append(&mut rest);
    proof {
        assert(raw_payloads@.take(leading.len() as int) =~= leading);
        assert(raw_payloads@.skip(leading.len() as int) =~= rest_view);
    }
    ExportDocument {
        kind: ResourceKind::PullRequest,
        owner: target.owner.clone(),
        repo: target.repo.clone(),
        number: target.number,
        title: pull.title.clone(),
        url: pull.html_url.clone(),
        state: to_lowercase(pull.state.as_str()),
        body: super::string_or_default(&pull.body),
        author: super::to_opt_actor(&pull.user),
        author_association: copy_opt(&issue.author_association),
        created_at: Some(pull.created_at),
        updated_at: Some(pull.updated_at),
        closed_at: pull.closed_at,
        state_reason: copy_opt(&issue.state_reason),
        locked: issue.locked,
        active_lock_reason: copy_opt(&issue.active_lock_reason),
        draft: pull.draft,
        merged_by: super::to_opt_actor(&pull.merged_by),
        merge_commit_sha: copy_opt(&pull.merge_commit_sha),
        mergeable_state: super::to_lowercase_opt(&pull.mergeable_state),
        base: to_branch(&pull.base),
        head: to_branch(&pull.head),
        checks: check_list,
        labels: super::to_label_list(&issue.labels),
        assignees: super::to_actor_list(&issue.assignees),
        requested_reviewers: super::to_actor_list(&pull.requested_reviewers),
        reactions,
        metadata,
        milestone: match &issue.milestone {
            Some(m) => Some(to_milestone(m)),
            None => None,
        },
        comments,
        reviews,
        review_threads: threads,
        timeline: enriched_timeline(&timeline, timeline_commits),
        files: to_changed_files(&files),
        commits: enriched_commits(&commits, commit_details),
        raw_payloads,
    }
}

} // verus!
