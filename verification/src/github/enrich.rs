use vstd::prelude::*;

use crate::model::{CheckStatus, CommitSummary, TimelineEntry};
use crate::text::{concat2, copy_opt, str_eq};

use super::rest::{
    RestCheckRun, RestCheckRunsResponse, RestCombinedStatus, RestCommit, RestCommitStatus,
    RestPullRequestFile, RestTimelineEvent,
};
use super::timeline::{timeline_details, timeline_fields_of, to_timeline_entry};
use super::{are_changed_files_of, field_views, is_opt_actor_of, to_changed_files, to_commit_summary};

verus! {

/// The value of the first field named `name` among `fields`, where there is one.
pub open spec fn first_field_value(fields: Seq<(Seq<char>, Seq<char>)>, name: Seq<char>) -> Option<Seq<char>>
    decreases fields.len(),
{
    if fields.len() == 0 {
        None
    } else if fields[0].0 == name {
        Some(fields[0].1)
    } else {
        first_field_value(fields.drop_first(), name)
    }
}

/// The commit whose changed files a timeline entry can be given: the first `Commit` detail
/// of a `committed` event.
pub open spec fn entry_commit_sha(entry: TimelineEntry) -> Option<Seq<char>> {
    if entry.event_type@ == "committed"@ {
        first_field_value(field_views(entry.details@), "Commit"@)
    } else {
        None
    }
}

pub fn committed_sha(entry: &TimelineEntry) -> (r: Option<String>)
    ensures
        opt_seq(r) == entry_commit_sha(*entry),
{
    if !str_eq(entry.event_type.as_str(), "committed") {
        return None;
    }
    let ghost all = field_views(entry.details@);
    assert(all.skip(0) =~= all);
    let mut i: usize = 0;
    while i < entry.details.len()
        invariant
            i <= entry.details@.len(),
            all == field_views(entry.details@),
            entry.event_type@ == "committed"@,
            first_field_value(all.skip(i as int), "Commit"@) == first_field_value(all, "Commit"@),
        decreases entry.details@.len() - i,
    {
        let d = &entry.details[i];
        assert(all.skip(i as int).drop_first() =~= all.skip(i as int + 1));
        assert(all.skip(i as int)[0] == (d.name@, d.value@));
        if str_eq(d.name.as_str(), "Commit") {
            return Some(d.value.clone());
        }
        i = i + 1;
    }
    None
}

/// The text of an optional string, as a spec value.
pub open spec fn opt_seq(s: Option<String>) -> Option<Seq<char>> {
    match s {
        Some(s) => Some(s@),
        None => None,
    }
}

/// The pairs (index, commit) of the timeline entries whose commit's files are to be fetched,
/// in timeline order.
pub open spec fn commit_requests_spec(timeline: Seq<TimelineEntry>) -> Seq<(usize, Seq<char>)>
    decreases timeline.len(),
{
    if timeline.len() == 0 {
        Seq::empty()
    } else {
        let rest = commit_requests_spec(timeline.drop_last());
        match entry_commit_sha(timeline.last()) {
            Some(sha) => rest.push(((timeline.len() - 1) as usize, sha)),
            None => rest,
        }
    }
}

/// The views of (index, commit) pairs.
pub open spec fn request_views(v: Seq<(usize, String)>) -> Seq<(usize, Seq<char>)> {
    v.map_values(|p: (usize, String)| (p.0, p.1@))
}

pub fn timeline_commit_requests(timeline: &Vec<TimelineEntry>) -> (r: Vec<(usize, String)>)
    ensures
        request_views(r@) == commit_requests_spec(timeline@),
{
    let mut r: Vec<(usize, String)> = Vec::new();
    let mut i: usize = 0;
    while i < timeline.len()
        invariant
            i <= timeline@.len(),
            request_views(r@) == commit_requests_spec(timeline@.take(i as int)),
        decreases timeline@.len() - i,
    {
        assert(timeline@.take(i as int + 1).drop_last() =~= timeline@.take(i as int));
        let sha = committed_sha(&timeline[i]);
        if let Some(s) = sha {
            r.push((i, s));
        }
        assert(request_views(r@) =~= commit_requests_spec(timeline@.take(i as int + 1)));
        i = i + 1;
    }
    assert(timeline@.take(timeline@.len() as int) =~= timeline@);
    r
}

/// Gives a timeline entry the changed files of its commit, where the commit was fetched and
/// lists its files; otherwise the entry stays as it was.
pub fn attach_commit_files(entry: &mut TimelineEntry, fetched: Option<&RestCommit>)
    ensures
        final(entry).event_type == old(entry).event_type,
        final(entry).actor == old(entry).actor,
        final(entry).created_at == old(entry).created_at,
        final(entry).body == old(entry).body,
        final(entry).details == old(entry).details,
        final(entry).commit_author == old(entry).commit_author,
        final(entry).source_issue == old(entry).source_issue,
        match fetched {
            Some(c) => match c.files {
                Some(fs) => are_changed_files_of(final(entry).files@, fs@),
                None => final(entry).files == old(entry).files,
            },
            None => final(entry).files == old(entry).files,
        },
{
    if let Some(commit) = fetched {
        if let Some(files) = &commit.files {
            entry.files = to_changed_files(files);
        }
    }
}

/// Gives a commit summary the changed files of the fetched commit (none where the commit
/// lists none); a commit that could not be fetched keeps its files.
pub fn attach_summary_files(summary: &mut CommitSummary, fetched: Option<&RestCommit>)
    ensures
        final(summary).sha == old(summary).sha,
        final(summary).url == old(summary).url,
        final(summary).message == old(summary).message,
        final(summary).author_name == old(summary).author_name,
        final(summary).authored_at == old(summary).authored_at,
        final(summary).author_user == old(summary).author_user,
        match fetched {
            Some(c) => match c.files {
                Some(fs) => are_changed_files_of(final(summary).files@, fs@),
                None => final(summary).files@.len() == 0,
            },
            None => final(summary).files == old(summary).files,
        },
{
    if let Some(commit) = fetched {
        summary.files = match &commit.files {
            Some(files) => to_changed_files(files),
            None => Vec::new(),
        };
    }
}

/// The commit whose files a `committed` event's entry is given: the first `Commit` detail.
pub open spec fn event_commit_sha(e: RestTimelineEvent) -> Option<Seq<char>> {
    if e.event@ == "committed"@ {
        first_field_value(timeline_details(e), "Commit"@)
    } else {
        None
    }
}

/// The files that a fetched commit lists, where it was fetched and lists them.
pub open spec fn fetched_files(fetched: Option<RestCommit>) -> Option<Seq<RestPullRequestFile>> {
    match fetched {
        Some(c) => match c.files {
            Some(fs) => Some(fs@),
            None => None,
        },
        None => None,
    }
}

/// The fetched commit at `i`, where there is one.
pub open spec fn fetched_at(fetched: Seq<Option<RestCommit>>, i: int) -> Option<RestCommit> {
    if 0 <= i < fetched.len() {
        fetched[i]
    } else {
        None
    }
}

/// `out` is the entry for the event `e`, given the files of `fetched` where `e` is a
/// `committed` event and the commit lists its files.
pub open spec fn is_enriched_entry_of(out: TimelineEntry, e: RestTimelineEvent, fetched: Option<RestCommit>) -> bool {
    &&& timeline_fields_of(out, e)
    &&& match (event_commit_sha(e), fetched_files(fetched)) {
        (Some(_), Some(fs)) => are_changed_files_of(out.files@, fs),
        _ => out.files@.len() == 0,
    }
}

/// The timeline entries of the events, the entry at `i` given the files of `fetched[i]`.
pub fn enriched_timeline(events: &Vec<RestTimelineEvent>, fetched: Vec<Option<RestCommit>>) -> (r: Vec<TimelineEntry>)
    ensures
        r@.len() == events@.len(),
        forall|i: int| 0 <= i < events@.len() ==> is_enriched_entry_of(#[trigger] r@[i], events@[i], fetched_at(fetched@, i)),
{
    let mut r: Vec<TimelineEntry> = Vec::new();
    let mut i: usize = 0;
    while i < events.len()
        invariant
            i <= events@.len(),
            r@.len() == i,
            forall|j: int| 0 <= j < i ==> is_enriched_entry_of(#[trigger] r@[j], events@[j], fetched_at(fetched@, j)),
        decreases events@.len() - i,
    {
        let mut entry = to_timeline_entry(&events[i]);
        assert(entry_commit_sha(entry) == event_commit_sha(events@[i as int]));
        if committed_sha(&entry).is_some() && i < fetched.len() {
            attach_commit_files(&mut entry, fetched[i].as_ref());
        }
        r.push(entry);
        i = i + 1;
    }
    r
}

/// `out` is the summary of the REST commit `c`, its files replaced by those of `fetched`
/// where that commit was fetched (none where it lists none).
pub open spec fn is_enriched_summary_of(out: CommitSummary, c: RestCommit, fetched: Option<RestCommit>) -> bool {
    &&& out.sha == c.sha
    &&& out.url == c.html_url
    &&& out.message == c.commit.message
    &&& out.author_name == match c.commit.author {
        Some(a) => Some(a.name),
        None => None,
    }
    &&& out.authored_at == match c.commit.author {
        Some(a) => a.date,
        None => None,
    }
    &&& is_opt_actor_of(out.author_user, c.author)
    &&& match fetched {
        Some(f) => match f.files {
            Some(fs) => are_changed_files_of(out.files@, fs@),
            None => out.files@.len() == 0,
        },
        None => match c.files {
            Some(fs) => are_changed_files_of(out.files@, fs@),
            None => out.files@.len() == 0,
        },
    }
}

/// The summaries of the REST commits, the one at `i` given the files of `fetched[i]`.
pub fn enriched_commits(commits: &Vec<RestCommit>, fetched: Vec<Option<RestCommit>>) -> (r: Vec<CommitSummary>)
    ensures
        r@.len() == commits@.len(),
        forall|i: int| 0 <= i < commits@.len() ==> is_enriched_summary_of(#[trigger] r@[i], commits@[i], fetched_at(fetched@, i)),
{
    let mut r: Vec<CommitSummary> = Vec::new();
    let mut i: usize = 0;
    while i < commits.len()
        invariant
            i <= commits@.len(),
            r@.len() == i,
            forall|j: int| 0 <= j < i ==> is_enriched_summary_of(#[trigger] r@[j], commits@[j], fetched_at(fetched@, j)),
        decreases commits@.len() - i,
    {
        let mut summary = to_commit_summary(&commits[i]);
        if i < fetched.len() {
            attach_summary_files(&mut summary, fetched[i].as_ref());
        }
        r.push(summary);
        i = i + 1;
    }
    r
}

/// `out` is `base` with its files replaced by those of `fetched` where that commit was
/// fetched (none where it lists none).
pub open spec fn is_summary_enriched(out: CommitSummary, base: CommitSummary, fetched: Option<RestCommit>) -> bool {
    &&& out.sha == base.sha && out.url == base.url && out.message == base.message
    &&& out.author_name == base.author_name && out.authored_at == base.authored_at
    &&& out.author_user == base.author_user
    &&& match fetched {
        Some(f) => match f.files {
            Some(fs) => are_changed_files_of(out.files@, fs@),
            None => out.files@.len() == 0,
        },
        None => out.files == base.files,
    }
}

/// The summaries, the one at `i` given the files of `fetched[i]`.
pub fn enrich_summaries(summaries: Vec<CommitSummary>, fetched: Vec<Option<RestCommit>>) -> (r: Vec<CommitSummary>)
    ensures
        r@.len() == summaries@.len(),
        forall|i: int| 0 <= i < summaries@.len() ==> is_summary_enriched(#[trigger] r@[i], summaries@[i], fetched_at(fetched@, i)),
{
    let ghost base = summaries@;
    let mut summaries = summaries;
    let mut r: Vec<CommitSummary> = Vec::new();
    let mut i: usize = 0;
    let n = summaries.len();
    while i < n
        invariant
            n == base.len(),
            i <= n,
            r@.len() == i,
            summaries@ == base.skip(i as int),
            forall|j: int| 0 <= j < i ==> is_summary_enriched(#[trigger] r@[j], base[j], fetched_at(fetched@, j)),
        decreases n - i,
    {
        let mut summary = summaries.remove(0);
        assert(summary == base[i as int]);
        assert(summaries@ =~= base.skip(i as int + 1));
        if i < fetched.len() {
            attach_summary_files(&mut summary, fetched[i].as_ref());
        }
        r.push(summary);
        i = i + 1;
    }
    r
}

/// `out` is the check entry for the commit status `s`: kind `status`, named by its
/// context (`status` where it has none), with no conclusion.
pub open spec fn is_status_check_of(out: CheckStatus, s: RestCommitStatus) -> bool {
    &&& out.kind@ == "status"@
    &&& out.name@ == match s.context {
        Some(c) => c@,
        None => "status"@,
    }
    &&& out.status == s.state
    &&& out.conclusion is None
    &&& out.url == s.target_url
    &&& out.description == s.description
}

/// `out` is the check entry for the check run `run`: kind `check`, linked to its details
/// page (else its own page), described by the app that ran it.
pub open spec fn is_run_check_of(out: CheckStatus, run: RestCheckRun) -> bool {
    &&& out.kind@ == "check"@
    &&& out.name == run.name
    &&& out.status == run.status
    &&& out.conclusion == run.conclusion
    &&& out.url == if run.details_url is Some {
        run.details_url
    } else {
        run.html_url
    }
    &&& opt_seq(out.description) == match run.app {
        Some(app) => Some("App: "@ + app.name@),
        None => None,
    }
}

/// `out` lists the commit statuses, then the check runs, each in its given order.
pub open spec fn is_checks_of(out: Seq<CheckStatus>, statuses: Seq<RestCommitStatus>, runs: Seq<RestCheckRun>) -> bool {
    &&& out.len() == statuses.len() + runs.len()
    &&& forall|i: int| 0 <= i < statuses.len() ==> is_status_check_of(#[trigger] out[i], statuses[i])
    &&& forall|i: int| 0 <= i < runs.len() ==> is_run_check_of(#[trigger] out[statuses.len() + i], runs[i])
}

/// Each commit status becomes the check at its own place, named by the status's context
/// where it has one (`status` where it has none), with the status's state, link and
/// description and no conclusion.
pub proof fn law_status_checks_named_by_context(
    out: Seq<CheckStatus>,
    statuses: Seq<RestCommitStatus>,
    runs: Seq<RestCheckRun>,
)
    requires
        is_checks_of(out, statuses, runs),
    ensures
        forall|i: int|
            0 <= i < statuses.len() ==> {
                &&& match (#[trigger] statuses[i]).context {
                    Some(c) => out[i].name@ == c@,
                    None => out[i].name@ == "status"@,
                }
                &&& out[i].status == statuses[i].state
                &&& out[i].url == statuses[i].target_url
                &&& out[i].description == statuses[i].description
                &&& out[i].conclusion is None
            },
{
    assert forall|i: int| 0 <= i < statuses.len() implies {
        &&& match (#[trigger] statuses[i]).context {
            Some(c) => out[i].name@ == c@,
            None => out[i].name@ == "status"@,
        }
        &&& out[i].status == statuses[i].state
        &&& out[i].url == statuses[i].target_url
        &&& out[i].description == statuses[i].description
        &&& out[i].conclusion is None
    } by {
        assert(is_status_check_of(out[i], statuses[i]));
    }
}

fn status_check(s: &RestCommitStatus) -> (r: CheckStatus)
    ensures
        is_status_check_of(r, *s),
{
    CheckStatus {
        kind: String::from_str("status"),
        name: match &s.context {
            Some(c) => c.clone(),
            None => String::from_str("status"),
        },
        status: s.state.clone(),
        conclusion: None,
        url: copy_opt(&s.target_url),
        description: copy_opt(&s.description),
    }
}

fn run_check(run: &RestCheckRun) -> (r: CheckStatus)
    ensures
        is_run_check_of(r, *run),
{
    let url = match &run.details_url {
        Some(u) => Some(u.clone()),
        None => copy_opt(&run.html_url),
    };
    let description = match &run.app {
        Some(app) => Some(concat2("App: ", app.name.as_str())),
        None => None,
    };
    CheckStatus {
        kind: String::from_str("check"),
        name: run.name.clone(),
        status: run.status.clone(),
        conclusion: copy_opt(&run.conclusion),
        url,
        description,
    }
}

/// The checks of a pull request's head commit: its commit statuses, then its check runs.
pub fn build_checks(combined: &RestCombinedStatus, runs: &RestCheckRunsResponse) -> (r: Vec<CheckStatus>)
    ensures
        is_checks_of(r@, combined.statuses@, runs.check_runs@),
        forall|i: int|
            0 <= i < combined.statuses@.len() ==> match (#[trigger] combined.statuses@[i]).context {
                Some(c) => r@[i].name@ == c@,
                None => r@[i].name@ == "status"@,
            },
{
    let mut r: Vec<CheckStatus> = Vec::new();
    let mut i: usize = 0;
    while i < combined.statuses.len()
        invariant
            i <= combined.statuses@.len(),
            r@.len() == i,
            forall|j: int| 0 <= j < i ==> is_status_check_of(#[trigger] r@[j], combined.statuses@[j]),
        decreases combined.statuses@.len() - i,
    {
        r.push(status_check(&combined.statuses[i]));
        i = i + 1;
    }
    let n = combined.statuses.len();
    let mut k: usize = 0;
    while k < runs.check_runs.len()
        invariant
            n == combined.statuses@.len(),
            k <= runs.check_runs@.len(),
            r@.len() == n + k,
            forall|j: int| 0 <= j < n ==> is_status_check_of(#[trigger] r@[j], combined.statuses@[j]),
            forall|j: int| 0 <= j < k ==> is_run_check_of(#[trigger] r@[n + j], runs.check_runs@[j]),
        decreases runs.check_runs@.len() - k,
    {
        let ghost prev = r@;
        r.push(run_check(&runs.check_runs[k]));
        proof {
            assert forall|j: int| 0 <= j < k + 1 implies is_run_check_of(#[trigger] r@[n + j], runs.check_runs@[j]) by {
                if j < k {
                    assert(r@[n + j] == prev[n + j]);
                }
            }
        }
        k = k + 1;
    }
    r
}

} // verus!
