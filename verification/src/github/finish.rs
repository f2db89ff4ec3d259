use vstd::prelude::*;

use crate::model::{CheckStatus, CommitSummary, ExportDocument, RawGraphQlRequest, RawPayload};

use super::documents::{
    is_rest_payload, numbered, numbered_subject, outcome_notice, rest_payload, skip_notice,
    timeline_of, to_timeline,
};
use super::enrich::{enrich_summaries, enriched_timeline, fetched_at, is_enriched_entry_of, is_summary_enriched};
use super::field_views;
use super::rest::{RestCommit, RestTimelineEvent};

verus! {

/// Two documents agree on everything that the enrichment steps after a GraphQL export
/// leave alone: all but the timeline, metadata, raw payloads, commits and checks.
pub open spec fn same_apart_from_enrichment(a: ExportDocument, b: ExportDocument) -> bool {
    &&& a.kind == b.kind && a.owner == b.owner && a.repo == b.repo && a.number == b.number
    &&& a.title == b.title && a.url == b.url && a.state == b.state && a.body == b.body
    &&& a.author == b.author && a.author_association == b.author_association
    &&& a.created_at == b.created_at && a.updated_at == b.updated_at && a.closed_at == b.closed_at
    &&& a.state_reason == b.state_reason && a.locked == b.locked
    &&& a.active_lock_reason == b.active_lock_reason && a.draft == b.draft
    &&& a.merged_by == b.merged_by && a.merge_commit_sha == b.merge_commit_sha
    &&& a.mergeable_state == b.mergeable_state && a.base == b.base && a.head == b.head
    &&& a.labels == b.labels && a.assignees == b.assignees
    &&& a.requested_reviewers == b.requested_reviewers && a.reactions == b.reactions
    &&& a.milestone == b.milestone && a.comments == b.comments && a.reviews == b.reviews
    &&& a.review_threads == b.review_threads && a.files == b.files
}

/// What the REST timeline request of an export gave: its events, their raw form and the
/// URLs they came from; or why it failed.
pub type TimelineFetch = Result<(Vec<RestTimelineEvent>, serde_json::Value, Vec<String>), String>;

/// Completes an issue exported over GraphQL with its REST timeline: the timeline and its
/// raw payload where it came, a notice where it failed.
pub fn finish_graphql_issue(doc: &mut ExportDocument, timeline: TimelineFetch)
    ensures
        same_apart_from_enrichment(*final(doc), *old(doc)),
        final(doc).commits == old(doc).commits,
        final(doc).checks == old(doc).checks,
        field_views(final(doc).metadata@) == field_views(old(doc).metadata@) + outcome_notice(
            timeline,
            "Timeline enrichment"@,
            numbered("issue #"@, old(doc).number) + " timeline"@,
        ),
        match timeline {
            Ok((events, json, urls)) => {
                &&& timeline_of(final(doc).timeline@, events@)
                &&& final(doc).raw_payloads@.len() == old(doc).raw_payloads@.len() + 1
                &&& final(doc).raw_payloads@.drop_last() == old(doc).raw_payloads@
                &&& is_rest_payload(final(doc).raw_payloads@.last(), "rest.issue_timeline"@, json, urls@)
            },
            Err(_) => final(doc).timeline == old(doc).timeline && final(doc).raw_payloads == old(doc).raw_payloads,
        },
{
    match timeline {
        Ok((events, json, urls)) => {
            doc.timeline = to_timeline(&events);
            doc.raw_payloads.push(rest_payload("rest.issue_timeline", json, urls));
            assert(field_views(doc.metadata@) =~= field_views(old(doc).metadata@) + Seq::<(Seq<char>, Seq<char>)>::empty());
        },
        Err(e) => {
            let subject = numbered_subject("issue #", doc.number, " timeline");
            let n = skip_notice("Timeline enrichment", subject.as_str(), e.as_str());
            doc.metadata.push(n);
            assert(field_views(doc.metadata@) =~= field_views(old(doc).metadata@) + outcome_notice(
                timeline,
                "Timeline enrichment"@,
                numbered("issue #"@, old(doc).number) + " timeline"@,
            ));
        },
    }
}

/// The head commit of a document's pull request, where it is known.
pub fn head_sha(doc: &ExportDocument) -> (r: Option<String>)
    ensures
        r == match doc.head {
            Some(h) => h.sha,
            None => None,
        },
{
    match &doc.head {
        Some(h) => crate::text::copy_opt(&h.sha),
        None => None,
    }
}

/// What the REST timeline request of a pull request export gave, with the commit fetched
/// for each event where one was; or why it failed.
pub type PullTimelineFetch = Result<(Vec<RestTimelineEvent>, Vec<Option<RestCommit>>, serde_json::Value, Vec<String>), String>;

/// The checks of the head commit with their raw payloads, or why they are missing.
pub type ChecksFetch = Result<(Vec<CheckStatus>, Vec<RawPayload>), String>;

/// The raw payloads of the checks of a head commit: its combined status and its check runs,
/// each with the URL it was fetched from.
pub fn checks_payloads(status: serde_json::Value, status_url: String, runs: serde_json::Value, runs_url: String) -> (r: Vec<RawPayload>)
    ensures
        r@.len() == 2,
        is_rest_payload(r@[0], "rest.pull_request_combined_status"@, status, seq![status_url]),
        is_rest_payload(r@[1], "rest.pull_request_check_runs"@, runs, seq![runs_url]),
{
    let ghost (su, ru) = (status_url, runs_url);
    let first = rest_payload("rest.pull_request_combined_status", status, vec![status_url]);
    let second = rest_payload("rest.pull_request_check_runs", runs, vec![runs_url]);
    proof {
        reveal_strlit("rest.pull_request_combined_status");
        reveal_strlit("rest.pull_request_check_runs");
    }
    assert(first.request_urls@ =~= seq![su]);
    assert(second.request_urls@ =~= seq![ru]);
    vec![first, second]
}

/// The raw payload of the review threads of a pull request, fetched over GraphQL.
pub fn review_threads_payload(
    payload: serde_json::Value,
    request_urls: Vec<String>,
    graphql_requests: Vec<RawGraphQlRequest>,
) -> (r: RawPayload)
    ensures
        r.name@ == "graphql.pull_request_review_threads"@,
        r.payload == payload,
        r.request_urls == request_urls,
        r.graphql_requests == graphql_requests,
{
    RawPayload {
        name: String::from_str("graphql.pull_request_review_threads"),
        payload,
        request_urls,
        graphql_requests,
    }
}

/// The raw payloads of fetched checks.
pub open spec fn check_payloads(checks: Option<ChecksFetch>) -> Seq<RawPayload> {
    match checks {
        Some(Ok((_, ps))) => ps@,
        _ => Seq::empty(),
    }
}

/// Completes a pull request exported over GraphQL: its REST timeline (entries given the
/// files of their commits) or a notice, its commits given their files, and, where its head
/// commit is known, its checks or a notice.
pub fn finish_graphql_pull_request(
    doc: &mut ExportDocument,
    timeline: PullTimelineFetch,
    commit_details: Vec<Option<RestCommit>>,
    checks: Option<ChecksFetch>,
)
    ensures
        same_apart_from_enrichment(*final(doc), *old(doc)),
        field_views(final(doc).metadata@) == field_views(old(doc).metadata@) + outcome_notice(
            timeline,
            "Timeline enrichment"@,
            numbered("pull request #"@, old(doc).number) + " timeline"@,
        ) + match checks {
            Some(c) => outcome_notice(c, "Checks enrichment"@, numbered("pull request #"@, old(doc).number) + " checks"@),
            None => Seq::empty(),
        },
        match timeline {
            Ok((events, fetched, _, _)) => {
                &&& final(doc).timeline@.len() == events@.len()
                &&& forall|i: int|
                    0 <= i < events@.len() ==> is_enriched_entry_of(#[trigger] final(doc).timeline@[i], events@[i], fetched_at(fetched@, i))
            },
            Err(_) => final(doc).timeline == old(doc).timeline,
        },
        final(doc).commits@.len() == old(doc).commits@.len(),
        forall|i: int|
            0 <= i < old(doc).commits@.len() ==> is_summary_enriched(
                #[trigger] final(doc).commits@[i],
                old(doc).commits@[i],
                fetched_at(commit_details@, i),
            ),
        match checks {
            Some(Ok((cs, _))) => final(doc).checks == cs,
            _ => final(doc).checks == old(doc).checks,
        },
        match timeline {
            Ok((_, _, json, urls)) => {
                &&& final(doc).raw_payloads@.len() == old(doc).raw_payloads@.len() + 1 + check_payloads(checks).len()
                &&& final(doc).raw_payloads@.take(old(doc).raw_payloads@.len() as int) == old(doc).raw_payloads@
                &&& is_rest_payload(
                    final(doc).raw_payloads@[old(doc).raw_payloads@.len() as int],
                    "rest.pull_request_timeline"@,
                    json,
                    urls@,
                )
                &&& final(doc).raw_payloads@.skip(old(doc).raw_payloads@.len() as int + 1) == check_payloads(checks)
            },
            Err(_) => final(doc).raw_payloads@ == old(doc).raw_payloads@ + check_payloads(checks),
        },
{
    let ghost old_payloads = doc.raw_payloads@;
    let ghost old_meta = field_views(doc.metadata@);
    let number = doc.number;
    match timeline {
        Ok((events, fetched, json, urls)) => {
            doc.timeline = enriched_timeline(&events, fetched);
            doc.raw_payloads.push(rest_payload("rest.pull_request_timeline", json, urls));
            assert(field_views(doc.metadata@) =~= old_meta + Seq::<(Seq<char>, Seq<char>)>::empty());
        },
        Err(e) => {
            let subject = numbered_subject("pull request #", number, " timeline");
            let n = skip_notice("Timeline enrichment", subject.as_str(), e.as_str());
            doc.metadata.push(n);
        },
    }
    let ghost mid_meta = field_views(doc.metadata@);
    let ghost mid_payloads = doc.raw_payloads@;
    assert(mid_meta =~= old_meta + outcome_notice(
        timeline,
        "Timeline enrichment"@,
        numbered("pull request #"@, number) + " timeline"@,
    ));
    let mut commits: Vec<CommitSummary> = Vec::new();
    std::mem::swap(&mut commits, &mut doc.commits);
    doc.commits = enrich_summaries(commits, commit_details);
    match checks {
        Some(Ok((cs, ps))) => {
            doc.checks = cs;
            let mut ps = ps;
            doc.raw_payloads.append(&mut ps);
            assert(field_views(doc.metadata@) =~= mid_meta + Seq::<(Seq<char>, Seq<char>)>::empty());
            assert(doc.raw_payloads@ =~= mid_payloads + check_payloads(checks));
        },
        Some(Err(e)) => {
            let subject = numbered_subject("pull request #", number, " checks");
            let n = skip_notice("Checks enrichment", subject.as_str(), e.as_str());
            doc.metadata.push(n);
            assert(doc.raw_payloads@ =~= mid_payloads + Seq::<RawPayload>::empty());
        },
        None => {
            assert(field_views(doc.metadata@) =~= mid_meta + Seq::<(Seq<char>, Seq<char>)>::empty());
            assert(doc.raw_payloads@ =~= mid_payloads + Seq::<RawPayload>::empty());
        },
    }
    proof {
        if timeline is Ok {
            assert(doc.raw_payloads@.take(old_payloads.len() as int) =~= old_payloads);
            assert(doc.raw_payloads@.skip(old_payloads.len() as int + 1) =~= check_payloads(checks));
        } else {
            assert(doc.raw_payloads@ =~= old_payloads + check_payloads(checks));
        }
    }
}

} // verus!
