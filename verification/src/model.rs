use vstd::prelude::*;

use crate::cli::ResourceKind;

verus! {

/// Any JSON value, carried through unchanged from the API responses.
#[verifier::external_type_specification]
#[verifier::external_body]
pub struct ExJsonValue(serde_json::Value);

/// Calls `serde_json::Value::clone`, which its `#[derive(Clone)]` defines as a
/// structural copy: the copy equals the value it was made from.
pub assume_specification[ <serde_json::Value as Clone>::clone ](v: &serde_json::Value) -> (r:
    serde_json::Value)
    ensures
        r == *v,
;

/// A point in time in UTC: whole seconds since the Unix epoch and the nanoseconds
/// within that second.
#[derive(Clone, Copy, Debug, Default, PartialEq, Eq, Structural)]
pub struct Timestamp {
    pub seconds: i64,
    pub nanos: u32,
}

#[derive(Clone, Debug, Default)]
pub struct Actor {
    pub login: String,
    pub url: Option<String>,
}

#[derive(Clone, Debug, Default)]
pub struct Label {
    pub name: String,
    pub color: Option<String>,
    pub description: Option<String>,
}

#[derive(Clone, Debug, Default)]
pub struct Reaction {
    pub content: String,
    pub count: u64,
    pub users: Vec<Actor>,
}

#[derive(Clone, Debug, Default)]
pub struct MetadataField {
    pub name: String,
    pub value: String,
}

#[derive(Clone, Debug, Default)]
pub struct Milestone {
    pub title: String,
    pub state: Option<String>,
    pub due_on: Option<Timestamp>,
    pub url: Option<String>,
}

#[derive(Debug, Default)]
pub struct Comment {
    pub id: String,
    pub url: String,
    pub author: Option<Actor>,
    pub author_association: Option<String>,
    pub body: String,
    pub created_at: Option<Timestamp>,
    pub updated_at: Option<Timestamp>,
    pub reactions: Vec<Reaction>,
    pub metadata: Vec<MetadataField>,
    pub replies: Vec<Comment>,
    pub is_answer: bool,
}

#[derive(Clone, Debug, Default)]
pub struct Review {
    pub id: String,
    pub url: String,
    pub author: Option<Actor>,
    pub author_association: Option<String>,
    pub state: String,
    pub body: String,
    pub submitted_at: Option<Timestamp>,
    pub commit_id: Option<String>,
    pub reactions: Vec<Reaction>,
}

#[derive(Clone, Debug, Default)]
pub struct ReviewComment {
    pub id: String,
    pub url: String,
    pub author: Option<Actor>,
    pub author_association: Option<String>,
    pub body: String,
    pub created_at: Option<Timestamp>,
    pub updated_at: Option<Timestamp>,
    pub path: Option<String>,
    pub line: Option<i64>,
    pub start_line: Option<i64>,
    pub diff_hunk: Option<String>,
    pub in_reply_to: Option<String>,
    pub review_id: Option<String>,
    pub is_minimized: Option<bool>,
    pub minimized_reason: Option<String>,
    pub reactions: Vec<Reaction>,
}

#[derive(Clone, Debug, Default)]
pub struct ReviewThread {
    pub id: String,
    pub path: Option<String>,
    pub is_resolved: Option<bool>,
    pub is_outdated: Option<bool>,
    pub comments: Vec<ReviewComment>,
}

#[derive(Clone, Debug, Default)]
pub struct SourceIssue {
    pub number: u64,
    pub title: String,
    pub url: Option<String>,
}

#[derive(Clone, Debug, Default)]
pub struct TimelineEntry {
    pub event_type: String,
    pub actor: Option<Actor>,
    pub created_at: Option<Timestamp>,
    pub body: Option<String>,
    pub commit_author: Option<CommitAuthor>,
    pub source_issue: Option<SourceIssue>,
    pub details: Vec<MetadataField>,
    pub files: Vec<ChangedFile>,
}

#[derive(Clone, Debug, Default)]
pub struct CommitAuthor {
    pub name: Option<String>,
    pub email: Option<String>,
}

#[derive(Clone, Debug, Default)]
pub struct ChangedFile {
    pub sha: String,
    pub path: String,
    pub status: String,
    pub additions: i64,
    pub deletions: i64,
    pub changes: i64,
    pub previous_path: Option<String>,
    pub blob_url: Option<String>,
    pub patch: Option<String>,
}

#[derive(Clone, Debug, Default)]
pub struct CommitSummary {
    pub sha: String,
    pub url: Option<String>,
    pub message: String,
    pub author_name: Option<String>,
    pub authored_at: Option<Timestamp>,
    pub author_user: Option<Actor>,
    pub files: Vec<ChangedFile>,
}

/// A branch of a pull request: its name, its tip commit and the repository that holds it.
#[derive(Clone, Debug, Default)]
pub struct BranchRef {
    pub ref_name: String,
    pub sha: Option<String>,
    pub repo_full_name: Option<String>,
}

/// A commit status or a check run of a pull request's head commit.
#[derive(Clone, Debug, Default)]
pub struct CheckStatus {
    pub kind: String,
    pub name: String,
    pub status: String,
    pub conclusion: Option<String>,
    pub url: Option<String>,
    pub description: Option<String>,
}

#[derive(Clone, Debug, Default)]
pub struct RawGraphQlRequest {
    pub query: String,
    pub variables: serde_json::Value,
}

#[derive(Clone, Debug, Default)]
pub struct RawPayload {
    pub name: String,
    pub payload: serde_json::Value,
    pub request_urls: Vec<String>,
    pub graphql_requests: Vec<RawGraphQlRequest>,
}

#[derive(Debug)]
pub struct ExportDocument {
    pub kind: ResourceKind,
    pub owner: String,
    pub repo: String,
    pub number: u64,
    pub title: String,
    pub url: String,
    pub state: String,
    pub body: String,
    pub author: Option<Actor>,
    pub author_association: Option<String>,
    pub created_at: Option<Timestamp>,
    pub updated_at: Option<Timestamp>,
    pub closed_at: Option<Timestamp>,
    pub state_reason: Option<String>,
    pub locked: bool,
    pub active_lock_reason: Option<String>,
    pub draft: bool,
    pub merged_by: Option<Actor>,
    pub merge_commit_sha: Option<String>,
    pub mergeable_state: Option<String>,
    pub base: Option<BranchRef>,
    pub head: Option<BranchRef>,
    pub checks: Vec<CheckStatus>,
    pub labels: Vec<Label>,
    pub assignees: Vec<Actor>,
    pub requested_reviewers: Vec<Actor>,
    pub reactions: Vec<Reaction>,
    pub metadata: Vec<MetadataField>,
    pub milestone: Option<Milestone>,
    pub comments: Vec<Comment>,
    pub reviews: Vec<Review>,
    pub review_threads: Vec<ReviewThread>,
    pub timeline: Vec<TimelineEntry>,
    pub files: Vec<ChangedFile>,
    pub commits: Vec<CommitSummary>,
    pub raw_payloads: Vec<RawPayload>,
}

/// An empty document: an issue with no number, empty texts, no optional parts and
/// empty lists.
pub open spec fn is_empty_document(d: ExportDocument) -> bool {
    &&& d.kind == ResourceKind::Issue
    &&& d.owner@.len() == 0 && d.repo@.len() == 0 && d.number == 0
    &&& d.title@.len() == 0 && d.url@.len() == 0 && d.state@.len() == 0 && d.body@.len() == 0
    &&& d.author is None && d.author_association is None
    &&& d.created_at is None && d.updated_at is None && d.closed_at is None
    &&& d.state_reason is None && !d.locked && d.active_lock_reason is None && !d.draft
    &&& d.merged_by is None && d.merge_commit_sha is None && d.mergeable_state is None
    &&& d.base is None && d.head is None && d.checks@.len() == 0
    &&& d.labels@.len() == 0 && d.assignees@.len() == 0 && d.requested_reviewers@.len() == 0
    &&& d.reactions@.len() == 0 && d.metadata@.len() == 0 && d.milestone is None
    &&& d.comments@.len() == 0 && d.reviews@.len() == 0 && d.review_threads@.len() == 0
    &&& d.timeline@.len() == 0 && d.files@.len() == 0 && d.commits@.len() == 0
    &&& d.raw_payloads@.len() == 0
}

impl Default for ExportDocument {
    fn default() -> (d: Self)
        ensures
            is_empty_document(d),
    {
        ExportDocument {
            kind: ResourceKind::Issue,
            owner: String::new(),
            repo: String::new(),
            number: 0,
            title: String::new(),
            url: String::new(),
            state: String::new(),
            body: String::new(),
            author: None,
            author_association: None,
            created_at: None,
            updated_at: None,
            closed_at: None,
            state_reason: None,
            locked: false,
            active_lock_reason: None,
            draft: false,
            merged_by: None,
            merge_commit_sha: None,
            mergeable_state: None,
            base: None,
            head: None,
            checks: Vec::new(),
            labels: Vec::new(),
            assignees: Vec::new(),
            requested_reviewers: Vec::new(),
            reactions: Vec::new(),
            metadata: Vec::new(),
            milestone: None,
            comments: Vec::new(),
            reviews: Vec::new(),
            review_threads: Vec::new(),
            timeline: Vec::new(),
            files: Vec::new(),
            commits: Vec::new(),
            raw_payloads: Vec::new(),
        }
    }
}

/// The first second that `chrono` can represent: -262143-01-01T00:00:00Z.
pub open spec fn first_representable_second() -> int {
    -8_334_601_228_800
}

/// The last second that `chrono` can represent: +262142-12-31T23:59:59Z.
pub open spec fn last_representable_second() -> int {
    8_210_266_876_799
}

/// Whether `chrono` can represent the point in time: a second in its range of years, and
/// nanoseconds below one second, or below two seconds in the last second of a minute
/// (a leap second).
pub open spec fn representable(seconds: i64, nanos: u32) -> bool {
    &&& first_representable_second() <= seconds <= last_representable_second()
    &&& (nanos < 1_000_000_000 || (nanos < 2_000_000_000 && seconds % 60 == 59))
}

impl Timestamp {
    /// This point in time is one that `chrono` can represent, as every time read from the
    /// API is.
    pub open spec fn is_representable(self) -> bool {
        representable(self.seconds, self.nanos)
    }
}

/// The RFC 3339 text that `chrono` gives for a point in time, or `None` where `chrono`
/// cannot represent it.
pub uninterp spec fn rfc3339_text(seconds: i64, nanos: u32) -> Option<Seq<char>>;

/// Calls `chrono::DateTime::<Utc>::from_timestamp` and then `DateTime::to_rfc3339`.
/// The contract names the text `rfc3339_text` of the two numbers. `from_timestamp`
/// refuses exactly the instants outside its range of days (years -262143 to 262142) and
/// the nanoseconds that `NaiveTime::from_num_seconds_from_midnight_opt` refuses;
/// `to_rfc3339` cannot fail.
#[verifier::external_body]
pub(crate) fn timestamp_to_rfc3339(t: Timestamp) -> (r: Option<String>)
    ensures
        match r {
            Some(s) => rfc3339_text(t.seconds, t.nanos) == Some(s@),
            None => rfc3339_text(t.seconds, t.nanos) is None,
        },
        r is Some <==> representable(t.seconds, t.nanos),
{
    match chrono::DateTime::<chrono::Utc>::from_timestamp(t.seconds, t.nanos) {
        Some(d) => Some(d.to_rfc3339()),
        None => None,
    }
}

/// The RFC 3339 text of an optional point in time.
pub open spec fn optional_rfc3339(t: Option<Timestamp>) -> Option<Seq<char>> {
    match t {
        Some(t) => rfc3339_text(t.seconds, t.nanos),
        None => None,
    }
}

/// The RFC 3339 text of an optional point in time.
pub fn format_optional_datetime(value: Option<Timestamp>) -> (r: Option<String>)
    ensures
        match r {
            Some(s) => optional_rfc3339(value) == Some(s@),
            None => optional_rfc3339(value) is None,
        },
        r is Some <==> (value matches Some(t) && t.is_representable()),
{
    match value {
        Some(t) => timestamp_to_rfc3339(t),
        None => None,
    }
}

/// Two reactions hold the same content, count and users.
pub open spec fn same_reaction(a: Reaction, b: Reaction) -> bool {
    a.content == b.content && a.count == b.count && a.users@ == b.users@
}

/// Two sequences of reactions agree element by element.
pub open spec fn same_reactions(a: Seq<Reaction>, b: Seq<Reaction>) -> bool {
    a.len() == b.len() && forall|i: int| 0 <= i < a.len() ==> same_reaction(#[trigger] a[i], b[i])
}

/// Two review comments agree in every field.
pub open spec fn same_review_comment(a: ReviewComment, b: ReviewComment) -> bool {
    &&& a.id == b.id && a.url == b.url && a.author == b.author
    &&& a.author_association == b.author_association && a.body == b.body
    &&& a.created_at == b.created_at && a.updated_at == b.updated_at && a.path == b.path
    &&& a.line == b.line && a.start_line == b.start_line && a.diff_hunk == b.diff_hunk
    &&& a.in_reply_to == b.in_reply_to && a.review_id == b.review_id
    &&& a.is_minimized == b.is_minimized && a.minimized_reason == b.minimized_reason
    &&& same_reactions(a.reactions@, b.reactions@)
}

/// A copy of an actor.
pub fn copy_actor(a: &Actor) -> (r: Actor)
    ensures
        r == *a,
{
    Actor { login: a.login.clone(), url: crate::text::copy_opt(&a.url) }
}

/// A copy of an optional actor.
pub fn copy_opt_actor(a: &Option<Actor>) -> (r: Option<Actor>)
    ensures
        r == *a,
{
    match a {
        Some(a) => Some(copy_actor(a)),
        None => None,
    }
}

/// A copy of a list of actors.
pub fn copy_actors(v: &Vec<Actor>) -> (r: Vec<Actor>)
    ensures
        r@ == v@,
{
    let mut r: Vec<Actor> = Vec::new();
    let mut i: usize = 0;
    while i < v.len()
        invariant
            i <= v@.len(),
            r@ == v@.take(i as int),
        decreases v@.len() - i,
    {
        r.push(copy_actor(&v[i]));
        i = i + 1;
        assert(r@ =~= v@.take(i as int));
    }
    assert(v@.take(v@.len() as int) =~= v@);
    r
}

/// A copy of a reaction.
pub fn copy_reaction(a: &Reaction) -> (r: Reaction)
    ensures
        same_reaction(r, *a),
{
    Reaction { content: a.content.clone(), count: a.count, users: copy_actors(&a.users) }
}

/// A copy of a list of reactions.
pub fn copy_reactions(v: &Vec<Reaction>) -> (r: Vec<Reaction>)
    ensures
        same_reactions(r@, v@),
{
    let mut r: Vec<Reaction> = Vec::new();
    let mut i: usize = 0;
    while i < v.len()
        invariant
            i <= v@.len(),
            same_reactions(r@, v@.take(i as int)),
        decreases v@.len() - i,
    {
        r.push(copy_reaction(&v[i]));
        i = i + 1;
    }
    assert(v@.take(v@.len() as int) =~= v@);
    r
}

/// A copy of a review comment.
pub fn copy_review_comment(c: &ReviewComment) -> (r: ReviewComment)
    ensures
        same_review_comment(r, *c),
{
    ReviewComment {
        id: c.id.clone(),
        url: c.url.clone(),
        author: copy_opt_actor(&c.author),
        author_association: crate::text::copy_opt(&c.author_association),
        body: c.body.clone(),
        created_at: c.created_at,
        updated_at: c.updated_at,
        path: crate::text::copy_opt(&c.path),
        line: c.line,
        start_line: c.start_line,
        diff_hunk: crate::text::copy_opt(&c.diff_hunk),
        in_reply_to: crate::text::copy_opt(&c.in_reply_to),
        review_id: crate::text::copy_opt(&c.review_id),
        is_minimized: c.is_minimized,
        minimized_reason: crate::text::copy_opt(&c.minimized_reason),
        reactions: copy_reactions(&c.reactions),
    }
}

} // verus!
