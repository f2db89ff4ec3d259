use vstd::prelude::*;

use crate::cli::{ResolvedTarget, ResourceKind};
use crate::model::{
    Comment, ExportDocument, Label, MetadataField, RawPayload, Reaction, TimelineEntry,
};
use crate::text::{concat2, decimal_digits, lowercase, to_lowercase, u64_to_decimal};

use super::rest::{RestIssue, RestLabel, RestReactions, RestTimelineEvent};
use super::timeline::{is_timeline_entry_of, to_timeline_entry};
use super::{
    actors_of, counted_reactions, field, field_views, is_label_of, is_milestone_of,
    is_opt_actor_of, issue_metadata, issue_metadata_spec, text_or_empty, to_milestone,
};

verus! {

/// A notice that an enrichment step was skipped: `<subject> skipped: <error>`.
pub open spec fn skip_text(subject: Seq<char>, error: Seq<char>) -> Seq<char> {
    subject + " skipped: "@ + error
}

/// The notice fields that an enrichment outcome adds to a document's metadata: none
/// where it succeeded, one named `name` where it failed.
pub open spec fn outcome_notice<T>(outcome: Result<T, String>, name: Seq<char>, subject: Seq<char>) -> Seq<(Seq<char>, Seq<char>)> {
    match outcome {
        Ok(_) => Seq::empty(),
        Err(e) => seq![(name, skip_text(subject, e@))],
    }
}

/// A notice field: `name`, and `<subject> skipped: <error>`.
pub fn skip_notice(name: &str, subject: &str, error: &str) -> (r: MetadataField)
    ensures
        r.name@ == name@,
        r.value@ == skip_text(subject@, error@),
{
    let mut value = concat2(subject, " skipped: ");
    value.append(error);
    field(name, value)
}

/// `#<number>` after a kind of item: `issue #7`.
pub open spec fn numbered(prefix: Seq<char>, number: u64) -> Seq<char> {
    prefix + decimal_digits(number as nat)
}

pub fn numbered_subject(prefix: &str, number: u64, suffix: &str) -> (r: String)
    ensures
        r@ == numbered(prefix@, number) + suffix@,
{
    let digits = u64_to_decimal(number);
    let mut r = concat2(prefix, digits.as_str());
    r.append(suffix);
    r
}

/// `p` is a raw REST payload named `name` holding `payload`, fetched from `urls`.
pub open spec fn is_rest_payload(p: RawPayload, name: Seq<char>, payload: serde_json::Value, urls: Seq<String>) -> bool {
    &&& p.name@ == name
    &&& p.payload == payload
    &&& p.request_urls@ == urls
    &&& p.graphql_requests@.len() == 0
}

pub fn rest_payload(name: &str, payload: serde_json::Value, urls: Vec<String>) -> (r: RawPayload)
    ensures
        is_rest_payload(r, name@, payload, urls@),
{
    RawPayload { name: String::from_str(name), payload, request_urls: urls, graphql_requests: Vec::new() }
}

/// Both lists of URLs, the first one first.
pub fn concat_urls(first: Vec<String>, second: Vec<String>) -> (r: Vec<String>)
    ensures
        r@ == first@ + second@,
{
    let mut a = first;
    let mut b = second;
    a.append(&mut b);
    a
}

/// `out` holds, in order, the timeline entries for the REST events `events`.
pub open spec fn timeline_of(out: Seq<TimelineEntry>, events: Seq<RestTimelineEvent>) -> bool {
    out.len() == events.len() && forall|i: int| 0 <= i < events.len() ==> is_timeline_entry_of(#[trigger] out[i], events[i])
}

pub fn to_timeline(events: &Vec<RestTimelineEvent>) -> (r: Vec<TimelineEntry>)
    ensures
        timeline_of(r@, events@),
{
    let mut r: Vec<TimelineEntry> = Vec::new();
    let mut i: usize = 0;
    while i < events.len()
        invariant
            i <= events@.len(),
            r@.len() == i,
            forall|j: int| 0 <= j < i ==> is_timeline_entry_of(#[trigger] r@[j], events@[j]),
        decreases events@.len() - i,
    {
        r.push(to_timeline_entry(&events[i]));
        i = i + 1;
    }
    r
}

/// `out` holds, in order, the model labels for the REST labels `labels`.
pub open spec fn labels_of(out: Seq<Label>, labels: Seq<RestLabel>) -> bool {
    out.len() == labels.len() && forall|i: int| 0 <= i < labels.len() ==> is_label_of(#[trigger] out[i], labels[i])
}

/// Appends fields to metadata.
pub fn extend_fields(fields: &mut Vec<MetadataField>, more: Vec<MetadataField>)
    ensures
        field_views(final(fields)@) == field_views(old(fields)@) + field_views(more@),
{
    let ghost added = more@;
    let mut more = more;
    fields.append(&mut more);
    assert(field_views(fields@) =~= field_views(old(fields)@) + field_views(added));
}

/// The reactions of an item once its reaction listing was asked for: the listing where it
/// came, the counted reactions where it failed.
pub fn settle_reactions(
    counted: Vec<Reaction>,
    listing: Result<Vec<Reaction>, String>,
    notice_name: &str,
    subject: &str,
    notices: &mut Vec<MetadataField>,
) -> (r: Vec<Reaction>)
    ensures
        match listing {
            Ok(rs) => r == rs,
            Err(_) => r == counted,
        },
        field_views(final(notices)@) == field_views(old(notices)@) + outcome_notice(listing, notice_name@, subject@),
{
    match listing {
        Ok(rs) => {
            assert(field_views(notices@) =~= field_views(notices@) + Seq::<(Seq<char>, Seq<char>)>::empty());
            rs
        },
        Err(e) => {
            let n = skip_notice(notice_name, subject, e.as_str());
            notices.push(n);
            assert(field_views(notices@) =~= field_views(old(notices)@) + outcome_notice(listing, notice_name@, subject@));
            counted
        },
    }
}

/// Whether the reactions of an item are listed one by one: where the REST summary is
/// missing, or where it counts some.
pub fn wants_reaction_listing(summary: &Option<RestReactions>, counted: &Vec<Reaction>) -> (r: bool)
    ensures
        r == (summary is None || counted@.len() > 0),
{
    summary.is_none() || counted.len() > 0
}

/// What was fetched over REST to export an issue, with the comments already rendered.
pub struct RestIssueParts {
    pub issue: RestIssue,
    pub issue_json: serde_json::Value,
    pub issue_url: String,
    pub comments: Vec<Comment>,
    pub comment_notices: Vec<MetadataField>,
    pub comments_json: serde_json::Value,
    pub comment_urls: Vec<String>,
    pub comment_reaction_urls: Vec<String>,
    pub timeline: Vec<RestTimelineEvent>,
    pub timeline_json: serde_json::Value,
    pub timeline_urls: Vec<String>,
    /// The listing of the issue's own reactions, or why it failed.
    pub reactions: Result<Vec<Reaction>, String>,
}

/// The metadata of an issue exported over REST: that of the issue, the notices of its
/// comments, and a notice where its own reactions could not be listed.
pub open spec fn rest_issue_metadata(target: ResolvedTarget, p: RestIssueParts) -> Seq<(Seq<char>, Seq<char>)> {
    issue_metadata_spec(p.issue) + field_views(p.comment_notices@) + outcome_notice(
        p.reactions,
        "Reaction enrichment"@,
        numbered("issue #"@, target.number) + " top-level reactions"@,
    )
}

/// The document exported over REST for an issue.
pub open spec fn is_rest_issue_document(d: ExportDocument, target: ResolvedTarget, p: RestIssueParts) -> bool {
    &&& d.kind == ResourceKind::Issue
    &&& d.owner == target.owner && d.repo == target.repo && d.number == target.number
    &&& d.title == p.issue.title && d.url == p.issue.html_url
    &&& d.state@ == lowercase(p.issue.state@)
    &&& d.body@ == text_or_empty(p.issue.body)
    &&& is_opt_actor_of(d.author, p.issue.user)
    &&& d.author_association == p.issue.author_association
    &&& d.created_at == Some(p.issue.created_at)
    &&& d.updated_at == Some(p.issue.updated_at)
    &&& d.closed_at == p.issue.closed_at
    &&& d.state_reason == p.issue.state_reason
    &&& d.locked == p.issue.locked
    &&& d.active_lock_reason == p.issue.active_lock_reason
    &&& labels_of(d.labels@, p.issue.labels@)
    &&& actors_of(d.assignees@, p.issue.assignees@)
    &&& match p.reactions {
        Ok(rs) => d.reactions == rs,
        Err(_) => counted_reactions(d.reactions@, p.issue.reactions),
    }
    &&& match p.issue.milestone {
        Some(m) => d.milestone matches Some(dm) && is_milestone_of(dm, m),
        None => d.milestone is None,
    }
    &&& field_views(d.metadata@) == rest_issue_metadata(target, p)
    &&& d.comments == p.comments
    &&& timeline_of(d.timeline@, p.timeline@)
    &&& d.raw_payloads@.len() == 3
    &&& is_rest_payload(d.raw_payloads@[0], "rest.issue"@, p.issue_json, seq![p.issue_url])
    &&& is_rest_payload(
        d.raw_payloads@[1],
        "rest.issue_comments"@,
        p.comments_json,
        p.comment_urls@ + p.comment_reaction_urls@,
    )
    &&& is_rest_payload(d.raw_payloads@[2], "rest.issue_timeline"@, p.timeline_json, p.timeline_urls@)
    &&& !d.draft && d.merged_by is None && d.merge_commit_sha is None && d.mergeable_state is None
    &&& d.base is None && d.head is None && d.checks@.len() == 0
    &&& d.requested_reviewers@.len() == 0 && d.reviews@.len() == 0 && d.review_threads@.len() == 0
    &&& d.files@.len() == 0 && d.commits@.len() == 0
}

/// The document for an issue from what was fetched over REST.
pub fn rest_issue_document(target: &ResolvedTarget, parts: RestIssueParts) -> (d: ExportDocument)
    ensures
        is_rest_issue_document(d, *target, parts),
{
    let ghost p = parts;
    let RestIssueParts {
        issue,
        issue_json,
        issue_url,
        comments,
        comment_notices,
        comments_json,
        comment_urls,
        comment_reaction_urls,
        timeline,
        timeline_json,
        timeline_urls,
        reactions,
    } = parts;
    let mut metadata = issue_metadata(&issue);
    extend_fields(&mut metadata, comment_notices);
    let subject = numbered_subject("issue #", target.number, " top-level reactions");
    let counted = super::opt_reactions(&issue.reactions);
    let reactions = settle_reactions(counted, reactions, "Reaction enrichment", subject.as_str(), &mut metadata);
    let mut payloads: Vec<RawPayload> = Vec::new();
    let mut issue_urls: Vec<String> = Vec::new();
    issue_urls.push(issue_url);
    payloads.push(rest_payload("rest.issue", issue_json, issue_urls));
    payloads.push(
        rest_payload(
            "rest.issue_comments",
            comments_json,
            concat_urls(comment_urls, comment_reaction_urls),
        ),
    );
    payloads.push(rest_payload("rest.issue_timeline", timeline_json, timeline_urls));
    assert(seq![p.issue_url] =~= seq![p.issue_url]);
    ExportDocument {
        kind: ResourceKind::Issue,
        owner: target.owner.clone(),
        repo: target.repo.clone(),
        number: target.number,
        title: issue.title.clone(),
        url: issue.html_url.clone(),
        state: to_lowercase(issue.state.as_str()),
        body: super::string_or_default(&issue.body),
        author: super::to_opt_actor(&issue.user),
        author_association: crate::text::copy_opt(&issue.author_association),
        created_at: Some(issue.created_at),
        updated_at: Some(issue.updated_at),
        closed_at: issue.closed_at,
        state_reason: crate::text::copy_opt(&issue.state_reason),
        locked: issue.locked,
        active_lock_reason: crate::text::copy_opt(&issue.active_lock_reason),
        draft: false,
        merged_by: None,
        merge_commit_sha: None,
        mergeable_state: None,
        base: None,
        head: None,
        checks: Vec::new(),
        labels: super::to_label_list(&issue.labels),
        assignees: super::to_actor_list(&issue.assignees),
        requested_reviewers: Vec::new(),
        reactions,
        metadata,
        milestone: match &issue.milestone {
            Some(m) => Some(to_milestone(m)),
            None => None,
        },
        comments,
        reviews: Vec::new(),
        review_threads: Vec::new(),
        timeline: to_timeline(&timeline),
        files: Vec::new(),
        commits: Vec::new(),
        raw_payloads: payloads,
    }
}

} // verus!
