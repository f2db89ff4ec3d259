use vstd::prelude::*;

use crate::model::{CommitAuthor, MetadataField, SourceIssue, TimelineEntry, Timestamp};
use crate::text::{copy_opt, lowercase, to_lowercase};

use super::rest::{RestTimelineCommitIdentity, RestTimelineEvent};
use super::{field_views, is_opt_actor_of, opt_view, push_field, to_opt_actor};

verus! {

/// The commit an event refers to: its commit id, else its sha.
pub open spec fn commit_reference(e: RestTimelineEvent) -> Option<Seq<char>> {
    match e.commit_id {
        Some(c) => Some(c@),
        None => match e.sha {
            Some(s) => Some(s@),
            None => None,
        },
    }
}

/// The date of a commit identity, where it has one.
pub open spec fn identity_date(who: Option<RestTimelineCommitIdentity>) -> Option<Timestamp> {
    match who {
        Some(w) => w.date,
        None => None,
    }
}

/// When an event happened: its creation time, else its submission time, else the date of
/// its commit author, else that of its committer.
pub open spec fn event_time(e: RestTimelineEvent) -> Option<Timestamp> {
    if e.created_at is Some {
        e.created_at
    } else if e.submitted_at is Some {
        e.submitted_at
    } else if identity_date(e.author) is Some {
        identity_date(e.author)
    } else {
        identity_date(e.committer)
    }
}

/// The text of an event: its body, else its commit message.
pub open spec fn event_body(e: RestTimelineEvent) -> Option<Seq<char>> {
    match e.body {
        Some(b) => Some(b@),
        None => opt_view(e.message),
    }
}

/// The details of an event, in this order: its state (lower-cased), its label, the commit
/// it refers to, the old and new titles of a rename, and a review state (lower-cased).
pub open spec fn timeline_details(e: RestTimelineEvent) -> Seq<(Seq<char>, Seq<char>)> {
    let s0 = Seq::<(Seq<char>, Seq<char>)>::empty();
    let s1 = match e.state {
        Some(s) => s0.push(("State"@, lowercase(s@))),
        None => s0,
    };
    let s2 = match e.label {
        Some(l) => s1.push(("Label"@, l.name@)),
        None => s1,
    };
    let s3 = match commit_reference(e) {
        Some(c) => s2.push(("Commit"@, c)),
        None => s2,
    };
    let s4 = match e.rename {
        Some(r) => s3.push(("From"@, r.from@)).push(("To"@, r.to@)),
        None => s3,
    };
    match e.reviewed {
        Some(r) => s4.push(("Review state"@, lowercase(r@))),
        None => s4,
    }
}

/// The issue an event's source points at, in model form.
pub open spec fn event_source_issue(e: RestTimelineEvent) -> Option<SourceIssue> {
    match e.source {
        Some(src) => match src.issue {
            Some(i) => Some(SourceIssue { number: i.number, title: i.title, url: i.html_url }),
            None => None,
        },
        None => None,
    }
}

/// `out` names the author of the commit that an event carries, where it carries one.
pub open spec fn is_commit_author_of(out: Option<CommitAuthor>, who: Option<RestTimelineCommitIdentity>) -> bool {
    match (out, who) {
        (Some(a), Some(w)) => a.name == w.name && a.email == w.email,
        (None, None) => true,
        _ => false,
    }
}

/// `out` is the timeline entry for the REST timeline event `e`, before any files are
/// attached to it.
pub open spec fn is_timeline_entry_of(out: TimelineEntry, e: RestTimelineEvent) -> bool {
    &&& timeline_fields_of(out, e)
    &&& out.files@.len() == 0
}

/// `out` carries what the REST timeline event `e` says, whatever its files.
pub open spec fn timeline_fields_of(out: TimelineEntry, e: RestTimelineEvent) -> bool {
    &&& out.event_type == e.event
    &&& is_opt_actor_of(out.actor, e.actor)
    &&& out.created_at == event_time(e)
    &&& opt_view(out.body) == event_body(e)
    &&& is_commit_author_of(out.commit_author, e.author)
    &&& out.source_issue == event_source_issue(e)
    &&& field_views(out.details@) == timeline_details(e)
}

/// A timeline entry points at the issue that its event's source names: the same number,
/// title and URL; it points at none where the event has no source issue.
pub proof fn law_timeline_source_issue(out: TimelineEntry, e: RestTimelineEvent)
    requires
        timeline_fields_of(out, e),
    ensures
        match e.source {
            Some(src) => match src.issue {
                Some(i) => out.source_issue matches Some(s) && s.number == i.number && s.title
                    == i.title && s.url == i.html_url,
                None => out.source_issue is None,
            },
            None => out.source_issue is None,
        },
{
}

fn timeline_details_of(event: &RestTimelineEvent) -> (r: Vec<MetadataField>)
    ensures
        field_views(r@) == timeline_details(*event),
{
    let mut details: Vec<MetadataField> = Vec::new();
    assert(field_views(details@) =~= Seq::<(Seq<char>, Seq<char>)>::empty());
    if let Some(state) = &event.state {
        push_field(&mut details, "State", to_lowercase(state.as_str()));
    }
    if let Some(label) = &event.label {
        push_field(&mut details, "Label", label.name.clone());
    }
    let commit = match &event.commit_id {
        Some(c) => Some(c),
        None => event.sha.as_ref(),
    };
    if let Some(commit_id) = commit {
        push_field(&mut details, "Commit", commit_id.clone());
    }
    if let Some(rename) = &event.rename {
        push_field(&mut details, "From", rename.from.clone());
        push_field(&mut details, "To", rename.to.clone());
    }
    if let Some(review_state) = &event.reviewed {
        push_field(&mut details, "Review state", to_lowercase(review_state.as_str()));
    }
    details
}

fn event_time_of(event: &RestTimelineEvent) -> (r: Option<Timestamp>)
    ensures
        r == event_time(*event),
{
    if event.created_at.is_some() {
        event.created_at
    } else if event.submitted_at.is_some() {
        event.submitted_at
    } else {
        let authored = match &event.author {
            Some(a) => a.date,
            None => None,
        };
        if authored.is_some() {
            authored
        } else {
            match &event.committer {
                Some(c) => c.date,
                None => None,
            }
        }
    }
}

pub fn to_timeline_entry(event: &RestTimelineEvent) -> (r: TimelineEntry)
    ensures
        is_timeline_entry_of(r, *event),
        match event.source {
            Some(src) => match src.issue {
                Some(i) => r.source_issue matches Some(s) && s.number == i.number && s.title == i.title
                    && s.url == i.html_url,
                None => r.source_issue is None,
            },
            None => r.source_issue is None,
        },
{
    let body = match &event.body {
        Some(b) => Some(b.clone()),
        None => copy_opt(&event.message),
    };
    let source_issue = match &event.source {
        Some(src) => match &src.issue {
            Some(i) => Some(
                SourceIssue { number: i.number, title: i.title.clone(), url: copy_opt(&i.html_url) },
            ),
            None => None,
        },
        None => None,
    };
    let commit_author = match &event.author {
        Some(a) => Some(CommitAuthor { name: copy_opt(&a.name), email: copy_opt(&a.email) }),
        None => None,
    };
    TimelineEntry {
        event_type: event.event.clone(),
        actor: to_opt_actor(&event.actor),
        created_at: event_time_of(event),
        body,
        commit_author,
        source_issue,
        details: timeline_details_of(event),
        files: Vec::new(),
    }
}

} // verus!
