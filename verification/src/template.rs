use vstd::prelude::*;

use crate::model::{
    optional_rfc3339, Actor, BranchRef, ChangedFile, CheckStatus, Comment, CommitAuthor, CommitSummary, Label,
    MetadataField, Milestone, RawGraphQlRequest, RawPayload, Reaction, Review, ReviewComment,
    ReviewThread, SourceIssue, TimelineEntry, Timestamp,
};
use crate::text::{copy_opt, str_eq};

pub mod document;

verus! {

/// The text of an optional string, as a spec value.
pub open spec fn opt_str(s: Option<String>) -> Option<Seq<char>> {
    match s {
        Some(s) => Some(s@),
        None => None,
    }
}

/// The RFC 3339 text of an optional point in time, as the templates show it.
pub fn format_optional_datetime(value: Option<Timestamp>) -> (r: Option<String>)
    ensures
        opt_str(r) == optional_rfc3339(value),
        r is Some <==> (value matches Some(t) && t.is_representable()),
{
    crate::model::format_optional_datetime(value)
}

/// A person as the templates see them.
#[derive(Debug)]
pub struct ActorContext {
    pub login: String,
    pub url: Option<String>,
    pub name: Option<String>,
    pub email: Option<String>,
}

/// `out` shows the actor `a`: its login and URL, no name or email.
pub open spec fn is_actor_context_of(out: ActorContext, a: Actor) -> bool {
    out.login == a.login && out.url == a.url && out.name is None && out.email is None
}

/// `out` shows, in order, the actors `src`.
pub open spec fn actor_contexts_of(out: Seq<ActorContext>, src: Seq<Actor>) -> bool {
    out.len() == src.len() && forall|i: int| 0 <= i < src.len() ==> is_actor_context_of(#[trigger] out[i], src[i])
}

/// `out` shows the optional actor `a`.
pub open spec fn is_opt_actor_context_of(out: Option<ActorContext>, a: Option<Actor>) -> bool {
    match (out, a) {
        (Some(o), Some(a)) => is_actor_context_of(o, a),
        (None, None) => true,
        _ => false,
    }
}

/// `out` shows the author of a commit: named by its name, else by its e-mail address;
/// an author with neither is not shown.
pub open spec fn is_commit_author_context_of(out: Option<ActorContext>, author: Option<CommitAuthor>) -> bool {
    let name = match author {
        Some(a) => a.name,
        None => None,
    };
    let email = match author {
        Some(a) => a.email,
        None => None,
    };
    match out {
        None => name is None && email is None,
        Some(o) => {
            &&& o.login == match name {
                Some(n) => n,
                None => email.unwrap(),
            }
            &&& (name is Some || email is Some)
            &&& o.url is None && o.name == name && o.email == email
        },
    }
}

impl ActorContext {
    pub fn from_actor(actor: &Actor) -> (r: Self)
        ensures
            is_actor_context_of(r, *actor),
    {
        ActorContext { login: actor.login.clone(), url: copy_opt(&actor.url), name: None, email: None }
    }

    pub fn from_commit_author(author: Option<&CommitAuthor>) -> (r: Option<Self>)
        ensures
            is_commit_author_context_of(
                r,
                match author {
                    Some(a) => Some(*a),
                    None => None,
                },
            ),
    {
        let (name, email) = match author {
            Some(a) => (copy_opt(&a.name), copy_opt(&a.email)),
            None => (None, None),
        };
        let login = match &name {
            Some(n) => n.clone(),
            None => match &email {
                Some(e) => e.clone(),
                None => {
                    return None;
                },
            },
        };
        Some(ActorContext { login, url: None, name, email })
    }
}

pub fn opt_actor_context(actor: &Option<Actor>) -> (r: Option<ActorContext>)
    ensures
        is_opt_actor_context_of(r, *actor),
{
    match actor {
        Some(a) => Some(ActorContext::from_actor(a)),
        None => None,
    }
}

pub fn actor_contexts(actors: &Vec<Actor>) -> (r: Vec<ActorContext>)
    ensures
        actor_contexts_of(r@, actors@),
{
    let mut r: Vec<ActorContext> = Vec::new();
    let mut i: usize = 0;
    while i < actors.len()
        invariant
            i <= actors@.len(),
            r@.len() == i,
            forall|j: int| 0 <= j < i ==> is_actor_context_of(#[trigger] r@[j], actors@[j]),
        decreases actors@.len() - i,
    {
        r.push(ActorContext::from_actor(&actors[i]));
        i = i + 1;
    }
    r
}

#[derive(Debug)]
pub struct LabelContext {
    pub name: String,
    pub color: Option<String>,
    pub description: Option<String>,
}

/// `out` shows the label `l`.
pub open spec fn is_label_context_of(out: LabelContext, l: Label) -> bool {
    out.name == l.name && out.color == l.color && out.description == l.description
}

impl LabelContext {
    pub fn from_label(label: &Label) -> (r: Self)
        ensures
            is_label_context_of(r, *label),
    {
        LabelContext { name: label.name.clone(), color: copy_opt(&label.color), description: copy_opt(&label.description) }
    }
}

#[derive(Debug)]
pub struct ReactionContext {
    pub content: String,
    pub count: u64,
    pub users: Vec<ActorContext>,
}

/// `out` shows the reaction `r`.
pub open spec fn is_reaction_context_of(out: ReactionContext, r: Reaction) -> bool {
    out.content == r.content && out.count == r.count && actor_contexts_of(out.users@, r.users@)
}

/// `out` shows, in order, the reactions `src`.
pub open spec fn reaction_contexts_of(out: Seq<ReactionContext>, src: Seq<Reaction>) -> bool {
    out.len() == src.len() && forall|i: int| 0 <= i < src.len() ==> is_reaction_context_of(#[trigger] out[i], src[i])
}

impl ReactionContext {
    pub fn from_reaction(reaction: &Reaction) -> (r: Self)
        ensures
            is_reaction_context_of(r, *reaction),
    {
        ReactionContext { content: reaction.content.clone(), count: reaction.count, users: actor_contexts(&reaction.users) }
    }
}

pub fn reaction_contexts(reactions: &Vec<Reaction>) -> (r: Vec<ReactionContext>)
    ensures
        reaction_contexts_of(r@, reactions@),
{
    let mut r: Vec<ReactionContext> = Vec::new();
    let mut i: usize = 0;
    while i < reactions.len()
        invariant
            i <= reactions@.len(),
            r@.len() == i,
            forall|j: int| 0 <= j < i ==> is_reaction_context_of(#[trigger] r@[j], reactions@[j]),
        decreases reactions@.len() - i,
    {
        r.push(ReactionContext::from_reaction(&reactions[i]));
        i = i + 1;
    }
    r
}

#[derive(Debug)]
pub struct MetadataFieldContext {
    pub name: String,
    pub value: String,
}

/// `out` shows, in order, the metadata fields `src`.
pub open spec fn field_contexts_of(out: Seq<MetadataFieldContext>, src: Seq<MetadataField>) -> bool {
    out.len() == src.len() && forall|i: int|
        0 <= i < src.len() ==> (#[trigger] out[i]).name == src[i].name && out[i].value == src[i].value
}

impl MetadataFieldContext {
    pub fn from_field(field: &MetadataField) -> (r: Self)
        ensures
            r.name == field.name && r.value == field.value,
    {
        MetadataFieldContext { name: field.name.clone(), value: field.value.clone() }
    }
}

pub fn field_contexts(fields: &Vec<MetadataField>) -> (r: Vec<MetadataFieldContext>)
    ensures
        field_contexts_of(r@, fields@),
{
    let mut r: Vec<MetadataFieldContext> = Vec::new();
    let mut i: usize = 0;
    while i < fields.len()
        invariant
            i <= fields@.len(),
            field_contexts_of(r@, fields@.take(i as int)),
        decreases fields@.len() - i,
    {
        r.push(MetadataFieldContext::from_field(&fields[i]));
        i = i + 1;
    }
    assert(fields@.take(fields@.len() as int) =~= fields@);
    r
}

#[derive(Debug)]
pub struct MilestoneContext {
    pub title: String,
    pub state: Option<String>,
    pub due_on: Option<String>,
    pub url: Option<String>,
}

/// `out` shows the milestone `m`, its due date in RFC 3339.
pub open spec fn is_milestone_context_of(out: MilestoneContext, m: Milestone) -> bool {
    out.title == m.title && out.state == m.state && opt_str(out.due_on) == optional_rfc3339(m.due_on) && out.url == m.url
}

impl MilestoneContext {
    pub fn from_milestone(milestone: &Milestone) -> (r: Self)
        ensures
            is_milestone_context_of(r, *milestone),
    {
        MilestoneContext {
            title: milestone.title.clone(),
            state: copy_opt(&milestone.state),
            due_on: format_optional_datetime(milestone.due_on),
            url: copy_opt(&milestone.url),
        }
    }
}

#[derive(Debug)]
pub struct CommentContext {
    pub level: usize,
    pub ordinal: usize,
    pub id: String,
    pub url: String,
    pub author: Option<ActorContext>,
    pub author_association: Option<String>,
    pub body: String,
    pub created_at: Option<String>,
    pub updated_at: Option<String>,
    pub reactions: Vec<ReactionContext>,
    pub metadata: Vec<MetadataFieldContext>,
    pub replies: Vec<CommentContext>,
    pub is_answer: bool,
}

/// The heading levels of a comment and all its replies stay below `usize::MAX` when the
/// comment is shown at `level`.
pub open spec fn levels_fit(c: Comment, level: nat) -> bool
    decreases c,
{
    &&& level < usize::MAX
    &&& forall|i: int| 0 <= i < c.replies@.len() ==> levels_fit(#[trigger] c.replies@[i], level + 1)
}

/// `out` shows the comment `c` at heading `level` as the `ordinal`-th of its list, its
/// replies one level deeper, numbered from 1.
pub open spec fn is_comment_context_of(out: CommentContext, c: Comment, level: nat, ordinal: nat) -> bool
    decreases c,
{
    &&& out.level == level && out.ordinal == ordinal
    &&& out.id == c.id && out.url == c.url
    &&& is_opt_actor_context_of(out.author, c.author)
    &&& out.author_association == c.author_association
    &&& out.body == c.body
    &&& opt_str(out.created_at) == optional_rfc3339(c.created_at)
    &&& opt_str(out.updated_at) == optional_rfc3339(c.updated_at)
    &&& reaction_contexts_of(out.reactions@, c.reactions@)
    &&& field_contexts_of(out.metadata@, c.metadata@)
    &&& out.is_answer == c.is_answer
    &&& out.replies@.len() == c.replies@.len()
    &&& forall|i: int|
        0 <= i < c.replies@.len() ==> is_comment_context_of(
            #[trigger] out.replies@[i],
            c.replies@[i],
            level + 1,
            (i + 1) as nat,
        )
}

impl CommentContext {
    pub fn from_comment(comment: &Comment, level: usize, ordinal: usize) -> (r: Self)
        requires
            levels_fit(*comment, level as nat),
        ensures
            is_comment_context_of(r, *comment, level as nat, ordinal as nat),
        decreases comment,
    {
        let mut replies: Vec<CommentContext> = Vec::new();
        let mut i: usize = 0;
        while i < comment.replies.len()
            invariant
                i <= comment.replies@.len(),
                levels_fit(*comment, level as nat),
                replies@.len() == i,
                forall|j: int|
                    0 <= j < i ==> is_comment_context_of(
                        #[trigger] replies@[j],
                        comment.replies@[j],
                        (level + 1) as nat,
                        (j + 1) as nat,
                    ),
            decreases comment.replies@.len() - i,
        {
            assert(levels_fit(comment.replies@[i as int], (level + 1) as nat));
            assert(level + 1 < usize::MAX);
            let reply = CommentContext::from_comment(&comment.replies[i], level + 1, i + 1);
            replies.push(reply);
            i = i + 1;
        }
        CommentContext {
            level,
            ordinal,
            id: comment.id.clone(),
            url: comment.url.clone(),
            author: opt_actor_context(&comment.author),
            author_association: copy_opt(&comment.author_association),
            body: comment.body.clone(),
            created_at: format_optional_datetime(comment.created_at),
            updated_at: format_optional_datetime(comment.updated_at),
            reactions: reaction_contexts(&comment.reactions),
            metadata: field_contexts(&comment.metadata),
            replies,
            is_answer: comment.is_answer,
        }
    }
}

/// Whether the heading levels of a comment shown at `level` fit.
pub fn comment_levels_fit(comment: &Comment, level: usize) -> (r: bool)
    ensures
        r == levels_fit(*comment, level as nat),
    decreases comment,
{
    if level == usize::MAX {
        return false;
    }
    let mut i: usize = 0;
    while i < comment.replies.len()
        invariant
            i <= comment.replies@.len(),
            level < usize::MAX,
            forall|j: int| 0 <= j < i ==> levels_fit(#[trigger] comment.replies@[j], (level + 1) as nat),
        decreases comment.replies@.len() - i,
    {
        if !comment_levels_fit(&comment.replies[i], level + 1) {
            return false;
        }
        i = i + 1;
    }
    true
}

#[derive(Debug)]
pub struct ReviewContext {
    pub id: String,
    pub url: String,
    pub author: Option<ActorContext>,
    pub author_association: Option<String>,
    pub state: String,
    pub body: String,
    pub submitted_at: Option<String>,
    pub commit_id: Option<String>,
    pub reactions: Vec<ReactionContext>,
}

/// `out` shows the review `r`.
pub open spec fn is_review_context_of(out: ReviewContext, r: Review) -> bool {
    &&& out.id == r.id && out.url == r.url
    &&& is_opt_actor_context_of(out.author, r.author)
    &&& out.author_association == r.author_association
    &&& out.state == r.state && out.body == r.body
    &&& opt_str(out.submitted_at) == optional_rfc3339(r.submitted_at)
    &&& out.commit_id == r.commit_id
    &&& reaction_contexts_of(out.reactions@, r.reactions@)
}

impl ReviewContext {
    pub fn from_review(review: &Review) -> (r: Self)
        ensures
            is_review_context_of(r, *review),
    {
        ReviewContext {
            id: review.id.clone(),
            url: review.url.clone(),
            author: opt_actor_context(&review.author),
            author_association: copy_opt(&review.author_association),
            state: review.state.clone(),
            body: review.body.clone(),
            submitted_at: format_optional_datetime(review.submitted_at),
            commit_id: copy_opt(&review.commit_id),
            reactions: reaction_contexts(&review.reactions),
        }
    }
}

#[derive(Debug)]
pub struct ReviewCommentContext {
    pub id: String,
    pub url: String,
    pub author: Option<ActorContext>,
    pub author_association: Option<String>,
    pub body: String,
    pub created_at: Option<String>,
    pub updated_at: Option<String>,
    pub path: Option<String>,
    pub line: Option<i64>,
    pub start_line: Option<i64>,
    pub diff_hunk: Option<String>,
    pub in_reply_to: Option<String>,
    pub review_id: Option<String>,
    pub is_minimized: Option<bool>,
    pub minimized_reason: Option<String>,
    pub reactions: Vec<ReactionContext>,
}

/// `out` shows the review comment `c`.
pub open spec fn is_review_comment_context_of(out: ReviewCommentContext, c: ReviewComment) -> bool {
    &&& out.id == c.id && out.url == c.url
    &&& is_opt_actor_context_of(out.author, c.author)
    &&& out.author_association == c.author_association
    &&& out.body == c.body
    &&& opt_str(out.created_at) == optional_rfc3339(c.created_at)
    &&& opt_str(out.updated_at) == optional_rfc3339(c.updated_at)
    &&& out.path == c.path && out.line == c.line && out.start_line == c.start_line
    &&& out.diff_hunk == c.diff_hunk && out.in_reply_to == c.in_reply_to && out.review_id == c.review_id
    &&& out.is_minimized == c.is_minimized && out.minimized_reason == c.minimized_reason
    &&& reaction_contexts_of(out.reactions@, c.reactions@)
}

impl ReviewCommentContext {
    pub fn from_review_comment(comment: &ReviewComment) -> (r: Self)
        ensures
            is_review_comment_context_of(r, *comment),
    {
        ReviewCommentContext {
            id: comment.id.clone(),
            url: comment.url.clone(),
            author: opt_actor_context(&comment.author),
            author_association: copy_opt(&comment.author_association),
            body: comment.body.clone(),
            created_at: format_optional_datetime(comment.created_at),
            updated_at: format_optional_datetime(comment.updated_at),
            path: copy_opt(&comment.path),
            line: comment.line,
            start_line: comment.start_line,
            diff_hunk: copy_opt(&comment.diff_hunk),
            in_reply_to: copy_opt(&comment.in_reply_to),
            review_id: copy_opt(&comment.review_id),
            is_minimized: comment.is_minimized,
            minimized_reason: copy_opt(&comment.minimized_reason),
            reactions: reaction_contexts(&comment.reactions),
        }
    }
}

#[derive(Debug)]
pub struct ReviewThreadContext {
    pub ordinal: usize,
    pub id: String,
    pub path: Option<String>,
    pub is_resolved: Option<bool>,
    pub is_outdated: Option<bool>,
    pub comments: Vec<ReviewCommentContext>,
}

/// `out` shows the review thread `t` as the `ordinal`-th thread.
pub open spec fn is_thread_context_of(out: ReviewThreadContext, t: ReviewThread, ordinal: nat) -> bool {
    &&& out.ordinal == ordinal
    &&& out.id == t.id && out.path == t.path
    &&& out.is_resolved == t.is_resolved && out.is_outdated == t.is_outdated
    &&& out.comments@.len() == t.comments@.len()
    &&& forall|i: int|
        0 <= i < t.comments@.len() ==> is_review_comment_context_of(#[trigger] out.comments@[i], t.comments@[i])
}

impl ReviewThreadContext {
    pub fn from_thread(thread: &ReviewThread, ordinal: usize) -> (r: Self)
        ensures
            is_thread_context_of(r, *thread, ordinal as nat),
    {
        let mut comments: Vec<ReviewCommentContext> = Vec::new();
        let mut i: usize = 0;
        while i < thread.comments.len()
            invariant
                i <= thread.comments@.len(),
                comments@.len() == i,
                forall|j: int|
                    0 <= j < i ==> is_review_comment_context_of(#[trigger] comments@[j], thread.comments@[j]),
            decreases thread.comments@.len() - i,
        {
            comments.push(ReviewCommentContext::from_review_comment(&thread.comments[i]));
            i = i + 1;
        }
        ReviewThreadContext {
            ordinal,
            id: thread.id.clone(),
            path: copy_opt(&thread.path),
            is_resolved: thread.is_resolved,
            is_outdated: thread.is_outdated,
            comments,
        }
    }
}

#[derive(Debug)]
pub struct SourceIssueContext {
    pub number: u64,
    pub title: String,
    pub url: Option<String>,
}

impl SourceIssueContext {
    pub fn from_source_issue(source: &SourceIssue) -> (r: Self)
        ensures
            r.number == source.number && r.title == source.title && r.url == source.url,
    {
        SourceIssueContext { number: source.number, title: source.title.clone(), url: copy_opt(&source.url) }
    }
}

#[derive(Debug)]
pub struct ChangedFileContext {
    pub sha: String,
    pub path: String,
    pub status: String,
    pub additions: i64,
    pub deletions: i64,
    pub changes: i64,
    pub previous_path: Option<String>,
    pub blob_url: Option<String>,
    pub patch: Option<String>,
}

/// `out` shows the changed file `f`.
pub open spec fn is_file_context_of(out: ChangedFileContext, f: ChangedFile) -> bool {
    &&& out.sha == f.sha && out.path == f.path && out.status == f.status
    &&& out.additions == f.additions && out.deletions == f.deletions && out.changes == f.changes
    &&& out.previous_path == f.previous_path && out.blob_url == f.blob_url && out.patch == f.patch
}

/// `out` shows, in order, the changed files `src`.
pub open spec fn file_contexts_of(out: Seq<ChangedFileContext>, src: Seq<ChangedFile>) -> bool {
    out.len() == src.len() && forall|i: int| 0 <= i < src.len() ==> is_file_context_of(#[trigger] out[i], src[i])
}

impl ChangedFileContext {
    pub fn from_changed_file(file: &ChangedFile) -> (r: Self)
        ensures
            is_file_context_of(r, *file),
    {
        ChangedFileContext {
            sha: file.sha.clone(),
            path: file.path.clone(),
            status: file.status.clone(),
            additions: file.additions,
            deletions: file.deletions,
            changes: file.changes,
            previous_path: copy_opt(&file.previous_path),
            blob_url: copy_opt(&file.blob_url),
            patch: copy_opt(&file.patch),
        }
    }
}

pub fn file_contexts(files: &Vec<ChangedFile>) -> (r: Vec<ChangedFileContext>)
    ensures
        file_contexts_of(r@, files@),
{
    let mut r: Vec<ChangedFileContext> = Vec::new();
    let mut i: usize = 0;
    while i < files.len()
        invariant
            i <= files@.len(),
            r@.len() == i,
            forall|j: int| 0 <= j < i ==> is_file_context_of(#[trigger] r@[j], files@[j]),
        decreases files@.len() - i,
    {
        r.push(ChangedFileContext::from_changed_file(&files[i]));
        i = i + 1;
    }
    r
}

#[derive(Debug)]
pub struct TimelineEntryContext {
    pub event_type: String,
    pub actor: Option<ActorContext>,
    pub created_at: Option<String>,
    pub body: Option<String>,
    pub commit_author: Option<ActorContext>,
    pub source_issue: Option<SourceIssueContext>,
    pub details: Vec<MetadataFieldContext>,
    pub files: Vec<ChangedFileContext>,
}

/// `out` shows the timeline entry `e`.
pub open spec fn is_timeline_context_of(out: TimelineEntryContext, e: TimelineEntry) -> bool {
    &&& out.event_type == e.event_type
    &&& is_opt_actor_context_of(out.actor, e.actor)
    &&& opt_str(out.created_at) == optional_rfc3339(e.created_at)
    &&& out.body == e.body
    &&& is_commit_author_context_of(out.commit_author, e.commit_author)
    &&& match (out.source_issue, e.source_issue) {
        (Some(o), Some(s)) => o.number == s.number && o.title == s.title && o.url == s.url,
        (None, None) => true,
        _ => false,
    }
    &&& field_contexts_of(out.details@, e.details@)
    &&& file_contexts_of(out.files@, e.files@)
}

impl TimelineEntryContext {
    pub fn from_timeline_entry(entry: &TimelineEntry) -> (r: Self)
        ensures
            is_timeline_context_of(r, *entry),
    {
        let commit_author = match &entry.commit_author {
            Some(a) => ActorContext::from_commit_author(Some(a)),
            None => ActorContext::from_commit_author(None),
        };
        TimelineEntryContext {
            event_type: entry.event_type.clone(),
            actor: opt_actor_context(&entry.actor),
            created_at: format_optional_datetime(entry.created_at),
            body: copy_opt(&entry.body),
            commit_author,
            source_issue: match &entry.source_issue {
                Some(s) => Some(SourceIssueContext::from_source_issue(s)),
                None => None,
            },
            details: field_contexts(&entry.details),
            files: file_contexts(&entry.files),
        }
    }
}

#[derive(Debug)]
pub struct CommitContext {
    pub sha: String,
    pub url: Option<String>,
    pub message: String,
    pub author_name: Option<String>,
    pub authored_at: Option<String>,
    pub author_user: Option<ActorContext>,
    pub files: Vec<ChangedFileContext>,
}

/// `out` shows the commit `c`.
pub open spec fn is_commit_context_of(out: CommitContext, c: CommitSummary) -> bool {
    &&& out.sha == c.sha && out.url == c.url && out.message == c.message
    &&& out.author_name == c.author_name
    &&& opt_str(out.authored_at) == optional_rfc3339(c.authored_at)
    &&& is_opt_actor_context_of(out.author_user, c.author_user)
    &&& file_contexts_of(out.files@, c.files@)
}

impl CommitContext {
    pub fn from_commit(commit: &CommitSummary) -> (r: Self)
        ensures
            is_commit_context_of(r, *commit),
    {
        CommitContext {
            sha: commit.sha.clone(),
            url: copy_opt(&commit.url),
            message: commit.message.clone(),
            author_name: copy_opt(&commit.author_name),
            authored_at: format_optional_datetime(commit.authored_at),
            author_user: opt_actor_context(&commit.author_user),
            files: file_contexts(&commit.files),
        }
    }
}

/// A branch of a pull request as the templates see it.
#[derive(Debug)]
pub struct BranchRefContext {
    pub ref_name: String,
    pub sha: Option<String>,
    pub repo_full_name: Option<String>,
}

/// `out` shows the optional branch `b`.
pub open spec fn is_branch_context_of(out: Option<BranchRefContext>, b: Option<BranchRef>) -> bool {
    match (out, b) {
        (Some(o), Some(b)) => o.ref_name == b.ref_name && o.sha == b.sha && o.repo_full_name == b.repo_full_name,
        (None, None) => true,
        _ => false,
    }
}

impl BranchRefContext {
    pub fn from_branch(branch: &Option<BranchRef>) -> (r: Option<Self>)
        ensures
            is_branch_context_of(r, *branch),
    {
        match branch {
            Some(b) => Some(
                BranchRefContext {
                    ref_name: b.ref_name.clone(),
                    sha: copy_opt(&b.sha),
                    repo_full_name: copy_opt(&b.repo_full_name),
                },
            ),
            None => None,
        }
    }
}

/// A commit status or check run as the templates see it.
#[derive(Debug)]
pub struct CheckStatusContext {
    pub kind: String,
    pub name: String,
    pub status: String,
    pub conclusion: Option<String>,
    pub url: Option<String>,
    pub description: Option<String>,
}

/// `out` shows the check `c`.
pub open spec fn is_check_context_of(out: CheckStatusContext, c: CheckStatus) -> bool {
    &&& out.kind == c.kind && out.name == c.name && out.status == c.status
    &&& out.conclusion == c.conclusion && out.url == c.url && out.description == c.description
}

/// `out` shows, in order, the checks `src`.
pub open spec fn check_contexts_of(out: Seq<CheckStatusContext>, src: Seq<CheckStatus>) -> bool {
    out.len() == src.len() && forall|i: int| 0 <= i < src.len() ==> is_check_context_of(#[trigger] out[i], src[i])
}

impl CheckStatusContext {
    pub fn from_check(check: &CheckStatus) -> (r: Self)
        ensures
            is_check_context_of(r, *check),
    {
        CheckStatusContext {
            kind: check.kind.clone(),
            name: check.name.clone(),
            status: check.status.clone(),
            conclusion: copy_opt(&check.conclusion),
            url: copy_opt(&check.url),
            description: copy_opt(&check.description),
        }
    }
}

pub fn check_contexts(checks: &Vec<CheckStatus>) -> (r: Vec<CheckStatusContext>)
    ensures
        check_contexts_of(r@, checks@),
{
    let mut r: Vec<CheckStatusContext> = Vec::new();
    let mut i: usize = 0;
    while i < checks.len()
        invariant
            i <= checks@.len(),
            r@.len() == i,
            forall|j: int| 0 <= j < i ==> is_check_context_of(#[trigger] r@[j], checks@[j]),
        decreases checks@.len() - i,
    {
        r.push(CheckStatusContext::from_check(&checks[i]));
        i = i + 1;
    }
    r
}

#[derive(Debug)]
pub struct GraphQlRequestContext {
    pub query: String,
    pub variables: serde_json::Value,
}

impl GraphQlRequestContext {
    pub fn from_graphql_request(request: &RawGraphQlRequest) -> (r: Self)
        ensures
            r.query == request.query && r.variables == request.variables,
    {
        GraphQlRequestContext { query: request.query.clone(), variables: request.variables.clone() }
    }
}

/// The texts of `s` with every repeated one left out, each kept where it first occurs.
pub open spec fn first_occurrences(s: Seq<Seq<char>>) -> Seq<Seq<char>>
    decreases s.len(),
{
    if s.len() == 0 {
        Seq::empty()
    } else {
        let prev = first_occurrences(s.drop_last());
        if prev.contains(s.last()) {
            prev
        } else {
            prev.push(s.last())
        }
    }
}

/// Deduplicated texts hold no text twice.
pub proof fn law_first_occurrences_distinct(s: Seq<Seq<char>>)
    ensures
        first_occurrences(s).no_duplicates(),
    decreases s.len(),
{
    if s.len() > 0 {
        law_first_occurrences_distinct(s.drop_last());
    }
}

/// Deduplicated texts hold exactly the texts they were made from.
pub proof fn law_first_occurrences_same_texts(s: Seq<Seq<char>>)
    ensures
        forall|x: Seq<char>| first_occurrences(s).contains(x) <==> s.contains(x),
    decreases s.len(),
{
    if s.len() > 0 {
        let prev = s.drop_last();
        law_first_occurrences_same_texts(prev);
        let fp = first_occurrences(prev);
        let fo = first_occurrences(s);
        assert forall|x: Seq<char>| fo.contains(x) <==> s.contains(x) by {
            if fo.contains(x) {
                let k = choose|k: int| 0 <= k < fo.len() && fo[k] == x;
                if k < fp.len() {
                    assert(fp[k] == x);
                    assert(fp.contains(x));
                    assert(prev.contains(x));
                    let m = choose|m: int| 0 <= m < prev.len() && prev[m] == x;
                    assert(s[m] == x);
                } else {
                    assert(x == s.last());
                    assert(s[s.len() - 1] == x);
                }
            }
            if s.contains(x) {
                let k = choose|k: int| 0 <= k < s.len() && s[k] == x;
                if k < s.len() - 1 {
                    assert(prev[k] == x);
                    assert(prev.contains(x));
                    assert(fp.contains(x));
                    let m = choose|m: int| 0 <= m < fp.len() && fp[m] == x;
                    assert(fo[m] == x);
                } else if fp.contains(x) {
                    let m = choose|m: int| 0 <= m < fp.len() && fp[m] == x;
                    assert(fo[m] == x);
                } else {
                    assert(fo[fp.len() as int] == x);
                }
            }
        }
    }
}

/// Texts without repetitions come out of deduplication unchanged.
pub proof fn lemma_first_occurrences_of_distinct(s: Seq<Seq<char>>)
    requires
        s.no_duplicates(),
    ensures
        first_occurrences(s) == s,
    decreases s.len(),
{
    if s.len() > 0 {
        let prev = s.drop_last();
        assert(prev.no_duplicates());
        lemma_first_occurrences_of_distinct(prev);
        if prev.contains(s.last()) {
            let k = choose|k: int| 0 <= k < prev.len() && prev[k] == s.last();
            assert(s[k] == s[s.len() - 1]);
        }
        assert(prev.push(s.last()) =~= s);
    }
}

/// Deduplicating twice gives what deduplicating once gives.
pub proof fn law_first_occurrences_idempotent(s: Seq<Seq<char>>)
    ensures
        first_occurrences(first_occurrences(s)) == first_occurrences(s),
{
    law_first_occurrences_distinct(s);
    lemma_first_occurrences_of_distinct(first_occurrences(s));
}

/// Deduplication keeps no more texts than it was given.
pub proof fn law_first_occurrences_shorter(s: Seq<Seq<char>>)
    ensures
        first_occurrences(s).len() <= s.len(),
    decreases s.len(),
{
    if s.len() > 0 {
        law_first_occurrences_shorter(s.drop_last());
    }
}

/// The views of a vector of strings.
pub open spec fn string_texts(v: Seq<String>) -> Seq<Seq<char>> {
    v.map_values(|s: String| s@)
}

fn contains_text(values: &Vec<String>, value: &String) -> (r: bool)
    ensures
        r == string_texts(values@).contains(value@),
{
    let mut i: usize = 0;
    while i < values.len()
        invariant
            i <= values@.len(),
            forall|j: int| 0 <= j < i ==> values@[j]@ != value@,
        decreases values@.len() - i,
    {
        if str_eq(values[i].as_str(), value.as_str()) {
            assert(string_texts(values@)[i as int] == value@);
            return true;
        }
        i = i + 1;
    }
    proof {
        if string_texts(values@).contains(value@) {
            let k = choose|k: int| 0 <= k < string_texts(values@).len() && string_texts(values@)[k] == value@;
            assert(values@[k]@ == value@);
        }
    }
    false
}

/// The values without repetitions, each where it first occurs.
pub fn deduplicate_strings_preserve_order(values: &Vec<String>) -> (r: Vec<String>)
    ensures
        string_texts(r@) == first_occurrences(string_texts(values@)),
{
    let mut r: Vec<String> = Vec::new();
    let mut i: usize = 0;
    while i < values.len()
        invariant
            i <= values@.len(),
            string_texts(r@) == first_occurrences(string_texts(values@.take(i as int))),
        decreases values@.len() - i,
    {
        let ghost before = string_texts(r@);
        assert(string_texts(values@.take(i as int + 1)).drop_last() =~= string_texts(values@.take(i as int)));
        assert(string_texts(values@.take(i as int + 1)).last() == values@[i as int]@);
        if !contains_text(&r, &values[i]) {
            r.push(values[i].clone());
            assert(string_texts(r@) =~= before.push(values@[i as int]@));
        }
        i = i + 1;
    }
    assert(values@.take(values@.len() as int) =~= values@);
    r
}

#[derive(Debug)]
pub struct RawPayloadContext {
    pub name: String,
    pub request_urls: Vec<String>,
    pub request_count: usize,
    pub graphql_requests: Vec<GraphQlRequestContext>,
    pub payload: serde_json::Value,
}

/// `out` shows the raw payload `p`: its request URLs without repetitions, how many
/// requests there were, and its GraphQL requests.
pub open spec fn is_payload_context_of(out: RawPayloadContext, p: RawPayload) -> bool {
    &&& out.name == p.name
    &&& string_texts(out.request_urls@) == first_occurrences(string_texts(p.request_urls@))
    &&& out.request_count == p.request_urls@.len()
    &&& out.graphql_requests@.len() == p.graphql_requests@.len()
    &&& forall|i: int|
        0 <= i < p.graphql_requests@.len() ==> (#[trigger] out.graphql_requests@[i]).query == p.graphql_requests@[i].query
            && out.graphql_requests@[i].variables == p.graphql_requests@[i].variables
    &&& out.payload == p.payload
}

impl RawPayloadContext {
    pub fn from_raw_payload(payload: &RawPayload) -> (r: Self)
        ensures
            is_payload_context_of(r, *payload),
    {
        let mut requests: Vec<GraphQlRequestContext> = Vec::new();
        let mut i: usize = 0;
        while i < payload.graphql_requests.len()
            invariant
                i <= payload.graphql_requests@.len(),
                requests@.len() == i,
                forall|j: int|
                    0 <= j < i ==> (#[trigger] requests@[j]).query == payload.graphql_requests@[j].query
                        && requests@[j].variables == payload.graphql_requests@[j].variables,
            decreases payload.graphql_requests@.len() - i,
        {
            requests.push(GraphQlRequestContext::from_graphql_request(&payload.graphql_requests[i]));
            i = i + 1;
        }
        RawPayloadContext {
            name: payload.name.clone(),
            request_urls: deduplicate_strings_preserve_order(&payload.request_urls),
            request_count: payload.request_urls.len(),
            graphql_requests: requests,
            payload: payload.payload.clone(),
        }
    }
}

} // verus!
