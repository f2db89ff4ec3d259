use vstd::prelude::*;

use crate::cli::kind_text;
use crate::github::enrich::first_field_value;
use crate::github::field_views;
use crate::cli::ResolvedTarget;
use crate::github::pull_documents::{is_rest_pull_request_document, RestPullRequestParts};
use crate::github::graphql_documents::{graphql_pull_request_metadata, is_graphql_pull_request_document, GraphQlPullRequestParts};
use crate::github::rest::{RestIssue, RestPullRequest};
use crate::github::{issue_metadata_spec, with_pull_request_counts};
use crate::model::{optional_rfc3339, ExportDocument};
use crate::text::copy_opt;

use super::{
    actor_contexts, actor_contexts_of, field_contexts, field_contexts_of, file_contexts,
    file_contexts_of, format_optional_datetime, is_comment_context_of, is_commit_context_of,
    is_label_context_of, is_milestone_context_of, is_opt_actor_context_of, is_payload_context_of,
    is_review_context_of, is_thread_context_of, is_timeline_context_of, levels_fit, opt_actor_context,
    opt_str, reaction_contexts, reaction_contexts_of, ActorContext, CommentContext, CommitContext,
    LabelContext, MetadataFieldContext, MilestoneContext, RawPayloadContext, ReactionContext,
    ReviewContext, ReviewThreadContext, TimelineEntryContext, ChangedFileContext,
    BranchRefContext, CheckStatusContext, check_contexts, check_contexts_of, is_branch_context_of,
};

verus! {

/// Everything a template sees of an exported document.
#[derive(Debug)]
pub struct TemplateContext {
    pub kind: String,
    pub owner: String,
    pub repo: String,
    pub number: u64,
    pub title: String,
    pub url: String,
    pub state: String,
    pub body: String,
    pub author: Option<ActorContext>,
    pub author_association: Option<String>,
    pub created_at: Option<String>,
    pub updated_at: Option<String>,
    pub closed_at: Option<String>,
    pub state_reason: Option<String>,
    pub locked: bool,
    pub active_lock_reason: Option<String>,
    pub merged_by: Option<ActorContext>,
    pub merge_commit_sha: Option<String>,
    pub mergeable_state: Option<String>,
    pub base: Option<BranchRefContext>,
    pub head: Option<BranchRefContext>,
    pub checks: Vec<CheckStatusContext>,
    pub labels: Vec<LabelContext>,
    pub assignees: Vec<ActorContext>,
    pub requested_reviewers: Vec<ActorContext>,
    pub reactions: Vec<ReactionContext>,
    pub metadata: Vec<MetadataFieldContext>,
    pub milestone: Option<MilestoneContext>,
    pub comments: Vec<CommentContext>,
    pub reviews: Vec<ReviewContext>,
    pub review_threads: Vec<ReviewThreadContext>,
    pub timeline: Vec<TimelineEntryContext>,
    pub files: Vec<ChangedFileContext>,
    pub commits: Vec<CommitContext>,
    pub raw_payloads: Vec<RawPayloadContext>,
    pub merged_at: Option<String>,
    pub draft: bool,
}

/// The heading levels of every top-level comment, shown at level 3, fit.
pub open spec fn comment_levels_fit_all(d: ExportDocument) -> bool {
    forall|i: int| 0 <= i < d.comments@.len() ==> levels_fit(#[trigger] d.comments@[i], 3)
}

/// `out` is what the templates see of the document `d`: each part of the document, its
/// times in RFC 3339, its comments numbered from 1 at heading level 3, its review
/// threads numbered from 1, and the value of its first `Merged at` metadata field.
pub open spec fn is_template_context_of(out: TemplateContext, d: ExportDocument) -> bool {
    &&& out.kind@ == kind_text(d.kind)
    &&& out.owner == d.owner && out.repo == d.repo && out.number == d.number
    &&& out.title == d.title && out.url == d.url && out.state == d.state && out.body == d.body
    &&& is_opt_actor_context_of(out.author, d.author)
    &&& out.author_association == d.author_association
    &&& opt_str(out.created_at) == optional_rfc3339(d.created_at)
    &&& opt_str(out.updated_at) == optional_rfc3339(d.updated_at)
    &&& opt_str(out.closed_at) == optional_rfc3339(d.closed_at)
    &&& out.state_reason == d.state_reason && out.locked == d.locked
    &&& out.active_lock_reason == d.active_lock_reason
    &&& is_opt_actor_context_of(out.merged_by, d.merged_by)
    &&& out.merge_commit_sha == d.merge_commit_sha && out.mergeable_state == d.mergeable_state
    &&& is_branch_context_of(out.base, d.base) && is_branch_context_of(out.head, d.head)
    &&& check_contexts_of(out.checks@, d.checks@)
    &&& out.labels@.len() == d.labels@.len()
    &&& forall|i: int| 0 <= i < d.labels@.len() ==> is_label_context_of(#[trigger] out.labels@[i], d.labels@[i])
    &&& actor_contexts_of(out.assignees@, d.assignees@)
    &&& actor_contexts_of(out.requested_reviewers@, d.requested_reviewers@)
    &&& reaction_contexts_of(out.reactions@, d.reactions@)
    &&& field_contexts_of(out.metadata@, d.metadata@)
    &&& match (out.milestone, d.milestone) {
        (Some(o), Some(m)) => is_milestone_context_of(o, m),
        (None, None) => true,
        _ => false,
    }
    &&& out.comments@.len() == d.comments@.len()
    &&& forall|i: int|
        0 <= i < d.comments@.len() ==> is_comment_context_of(#[trigger] out.comments@[i], d.comments@[i], 3, (i + 1) as nat)
    &&& out.reviews@.len() == d.reviews@.len()
    &&& forall|i: int| 0 <= i < d.reviews@.len() ==> is_review_context_of(#[trigger] out.reviews@[i], d.reviews@[i])
    &&& out.review_threads@.len() == d.review_threads@.len()
    &&& forall|i: int|
        0 <= i < d.review_threads@.len() ==> is_thread_context_of(#[trigger] out.review_threads@[i], d.review_threads@[i], (i + 1) as nat)
    &&& out.timeline@.len() == d.timeline@.len()
    &&& forall|i: int| 0 <= i < d.timeline@.len() ==> is_timeline_context_of(#[trigger] out.timeline@[i], d.timeline@[i])
    &&& file_contexts_of(out.files@, d.files@)
    &&& out.commits@.len() == d.commits@.len()
    &&& forall|i: int| 0 <= i < d.commits@.len() ==> is_commit_context_of(#[trigger] out.commits@[i], d.commits@[i])
    &&& out.raw_payloads@.len() == d.raw_payloads@.len()
    &&& forall|i: int| 0 <= i < d.raw_payloads@.len() ==> is_payload_context_of(#[trigger] out.raw_payloads@[i], d.raw_payloads@[i])
    &&& opt_str(out.merged_at) == first_field_value(field_views(d.metadata@), "Merged at"@)
    &&& out.draft == d.draft
}

/// No field of `fields` is named `name`.
pub open spec fn lacks_field(fields: Seq<(Seq<char>, Seq<char>)>, name: Seq<char>) -> bool {
    forall|i: int| 0 <= i < fields.len() ==> (#[trigger] fields[i]).0 != name
}

proof fn lemma_first_field_after(a: Seq<(Seq<char>, Seq<char>)>, b: Seq<(Seq<char>, Seq<char>)>, name: Seq<char>)
    requires
        lacks_field(a, name),
    ensures
        first_field_value(a + b, name) == first_field_value(b, name),
    decreases a.len(),
{
    if a.len() > 0 {
        assert((a + b)[0] == a[0]);
        assert((a + b).drop_first() =~= a.drop_first() + b);
        assert forall|i: int| 0 <= i < a.drop_first().len() implies (#[trigger] a.drop_first()[i]).0 != name by {
            assert(a.drop_first()[i] == a[i + 1]);
        }
        lemma_first_field_after(a.drop_first(), b, name);
    } else {
        assert(a + b =~= b);
    }
}

proof fn lemma_counts_lack_merged_at(pull: RestPullRequest, issue: RestIssue)
    ensures
        lacks_field(with_pull_request_counts(issue_metadata_spec(issue), pull), "Merged at"@),
{
    reveal_strlit("Merged at");
    reveal_strlit("Comments");
    reveal_strlit("Locked");
    reveal_strlit("Lock reason");
    reveal_strlit("State reason");
    reveal_strlit("Draft");
    reveal_strlit("Merged");
    reveal_strlit("Mergeable state");
    reveal_strlit("Base");
    reveal_strlit("Head");
    reveal_strlit("Commits");
    reveal_strlit("Changed files");
    reveal_strlit("Additions");
    reveal_strlit("Deletions");
    let m = with_pull_request_counts(issue_metadata_spec(issue), pull);
    let names = set![
        "Comments"@, "Locked"@, "Lock reason"@, "State reason"@, "Draft"@, "Merged"@,
        "Mergeable state"@, "Base"@, "Head"@, "Commits"@, "Changed files"@, "Additions"@,
        "Deletions"@,
    ];
    assert forall|i: int| 0 <= i < m.len() implies names.contains(#[trigger] m[i].0) by {}
    let key = "Merged at"@;
    assert(key.len() == 9 && key[0] == 'M');
    assert(key != "Additions"@) by {
        assert("Additions"@[0] == 'A');
    }
    assert(key != "Deletions"@) by {
        assert("Deletions"@[0] == 'D');
    }
    assert(key != "Comments"@ && key != "Locked"@ && key != "Lock reason"@ && key != "State reason"@);
    assert(key != "Draft"@ && key != "Merged"@ && key != "Mergeable state"@ && key != "Base"@);
    assert(key != "Head"@ && key != "Commits"@ && key != "Changed files"@);
    assert(!names.contains(key));
}

/// The `merged_at` that templates see of a merged pull request exported over REST is the
/// RFC 3339 time at which it was merged.
pub proof fn law_rest_merged_at(d: ExportDocument, target: ResolvedTarget, p: RestPullRequestParts, ctx: TemplateContext)
    requires
        is_rest_pull_request_document(d, target, p),
        is_template_context_of(ctx, d),
        optional_rfc3339(p.pull.merged_at) is Some,
    ensures
        opt_str(ctx.merged_at) == optional_rfc3339(p.pull.merged_at),
{
    let counts = with_pull_request_counts(issue_metadata_spec(p.issue), p.pull);
    let text = optional_rfc3339(p.pull.merged_at)->0;
    let all = field_views(d.metadata@);
    let rest = all.skip(counts.len() as int + 1);
    lemma_counts_lack_merged_at(p.pull, p.issue);
    assert(all =~= counts + (seq![("Merged at"@, text)] + rest));
    lemma_first_field_after(counts, seq![("Merged at"@, text)] + rest, "Merged at"@);
}

/// The `merged_at` that templates see of a pull request exported over GraphQL is the
/// RFC 3339 time at which it was merged, and nothing where it was not.
pub proof fn law_graphql_merged_at(
    d: ExportDocument,
    owner: Seq<char>,
    repo: Seq<char>,
    number: u64,
    p: GraphQlPullRequestParts,
    ctx: TemplateContext,
)
    requires
        is_graphql_pull_request_document(d, owner, repo, number, p),
        is_template_context_of(ctx, d),
    ensures
        opt_str(ctx.merged_at) == optional_rfc3339(p.pull.merged_at),
{
    reveal_strlit("Merged at");
    reveal_strlit("Draft");
    reveal_strlit("Merged");
    reveal_strlit("Mergeable state");
    reveal_strlit("Base");
    reveal_strlit("Head");
    reveal_strlit("Commits");
    reveal_strlit("Changed files");
    reveal_strlit("Additions");
    reveal_strlit("Deletions");
    reveal_strlit("Merged by");
    reveal_strlit("Merge commit");
    let key = "Merged at"@;
    assert(key.len() == 9 && key[0] == 'M');
    assert(key != "Additions"@) by {
        assert("Additions"@[0] == 'A');
    }
    assert(key != "Deletions"@) by {
        assert("Deletions"@[0] == 'D');
    }
    assert(key != "Merged by"@) by {
        assert("Merged by"@[7] != key[7]);
    }
    assert(key != "Draft"@ && key != "Merged"@ && key != "Mergeable state"@ && key != "Base"@);
    assert(key != "Head"@ && key != "Commits"@ && key != "Changed files"@ && key != "Merge commit"@);
    let m = graphql_pull_request_metadata(p.pull);
    let names = set![
        "Draft"@, "Merged"@, "Mergeable state"@, "Base"@, "Head"@, "Commits"@, "Changed files"@,
        "Additions"@, "Deletions"@, "Merged by"@, "Merge commit"@,
    ];
    assert(!names.contains(key));
    let base = m.take(9);
    assert forall|i: int| 0 <= i < base.len() implies names.contains(#[trigger] base[i].0) by {}
    assert(lacks_field(base, key));
    match optional_rfc3339(p.pull.merged_at) {
        Some(text) => {
            assert(m[9] == (key, text));
            assert(m =~= base + (seq![(key, text)] + m.skip(10)));
            lemma_first_field_after(base, seq![(key, text)] + m.skip(10), key);
        },
        None => {
            assert forall|i: int| 0 <= i < m.len() implies names.contains(#[trigger] m[i].0) by {}
            assert(lacks_field(m, key));
            lemma_first_field_after(m, Seq::empty(), key);
            assert(m + Seq::<(Seq<char>, Seq<char>)>::empty() =~= m);
        },
    }
}

fn merged_at_value(document: &ExportDocument) -> (r: Option<String>)
    ensures
        opt_str(r) == first_field_value(field_views(document.metadata@), "Merged at"@),
{
    let ghost all = field_views(document.metadata@);
    assert(all.skip(0) =~= all);
    let mut i: usize = 0;
    while i < document.metadata.len()
        invariant
            i <= document.metadata@.len(),
            all == field_views(document.metadata@),
            first_field_value(all.skip(i as int), "Merged at"@) == first_field_value(all, "Merged at"@),
        decreases document.metadata@.len() - i,
    {
        let f = &document.metadata[i];
        assert(all.skip(i as int).drop_first() =~= all.skip(i as int + 1));
        assert(all.skip(i as int)[0] == (f.name@, f.value@));
        if crate::text::str_eq(f.name.as_str(), "Merged at") {
            return Some(f.value.clone());
        }
        i = i + 1;
    }
    None
}

impl TemplateContext {
    #[verifier::rlimit(30)]
    pub fn from_document(document: &ExportDocument) -> (r: Self)
        requires
            comment_levels_fit_all(*document),
        ensures
            is_template_context_of(r, *document),
            r.created_at is Some <==> (document.created_at matches Some(t) && t.is_representable()),
            r.updated_at is Some <==> (document.updated_at matches Some(t) && t.is_representable()),
            r.closed_at is Some <==> (document.closed_at matches Some(t) && t.is_representable()),
    {
        let mut labels: Vec<LabelContext> = Vec::new();
        let mut i: usize = 0;
        while i < document.labels.len()
            invariant
                i <= document.labels@.len(),
                labels@.len() == i,
                forall|j: int| 0 <= j < i ==> is_label_context_of(#[trigger] labels@[j], document.labels@[j]),
            decreases document.labels@.len() - i,
        {
            labels.push(LabelContext::from_label(&document.labels[i]));
            i = i + 1;
        }
        let mut comments: Vec<CommentContext> = Vec::new();
        let mut i: usize = 0;
        while i < document.comments.len()
            invariant
                i <= document.comments@.len(),
                comment_levels_fit_all(*document),
                comments@.len() == i,
                forall|j: int|
                    0 <= j < i ==> is_comment_context_of(#[trigger] comments@[j], document.comments@[j], 3, (j + 1) as nat),
            decreases document.comments@.len() - i,
        {
            assert(levels_fit(document.comments@[i as int], 3));
            comments.push(CommentContext::from_comment(&document.comments[i], 3, i + 1));
            i = i + 1;
        }
        let mut reviews: Vec<ReviewContext> = Vec::new();
        let mut i: usize = 0;
        while i < document.reviews.len()
            invariant
                i <= document.reviews@.len(),
                reviews@.len() == i,
                forall|j: int| 0 <= j < i ==> is_review_context_of(#[trigger] reviews@[j], document.reviews@[j]),
            decreases document.reviews@.len() - i,
        {
            reviews.push(ReviewContext::from_review(&document.reviews[i]));
            i = i + 1;
        }
        let mut threads: Vec<ReviewThreadContext> = Vec::new();
        let mut i: usize = 0;
        while i < document.review_threads.len()
            invariant
                i <= document.review_threads@.len(),
                threads@.len() == i,
                forall|j: int|
                    0 <= j < i ==> is_thread_context_of(#[trigger] threads@[j], document.review_threads@[j], (j + 1) as nat),
            decreases document.review_threads@.len() - i,
        {
            threads.push(ReviewThreadContext::from_thread(&document.review_threads[i], i + 1));
            i = i + 1;
        }
        let mut timeline: Vec<TimelineEntryContext> = Vec::new();
        let mut i: usize = 0;
        while i < document.timeline.len()
            invariant
                i <= document.timeline@.len(),
                timeline@.len() == i,
                forall|j: int| 0 <= j < i ==> is_timeline_context_of(#[trigger] timeline@[j], document.timeline@[j]),
            decreases document.timeline@.len() - i,
        {
            timeline.push(TimelineEntryContext::from_timeline_entry(&document.timeline[i]));
            i = i + 1;
        }
        let mut commits: Vec<CommitContext> = Vec::new();
        let mut i: usize = 0;
        while i < document.commits.len()
            invariant
                i <= document.commits@.len(),
                commits@.len() == i,
                forall|j: int| 0 <= j < i ==> is_commit_context_of(#[trigger] commits@[j], document.commits@[j]),
            decreases document.commits@.len() - i,
        {
            commits.push(CommitContext::from_commit(&document.commits[i]));
            i = i + 1;
        }
        let mut payloads: Vec<RawPayloadContext> = Vec::new();
        let mut i: usize = 0;
        while i < document.raw_payloads.len()
            invariant
                i <= document.raw_payloads@.len(),
                payloads@.len() == i,
                forall|j: int| 0 <= j < i ==> is_payload_context_of(#[trigger] payloads@[j], document.raw_payloads@[j]),
            decreases document.raw_payloads@.len() - i,
        {
            payloads.push(RawPayloadContext::from_raw_payload(&document.raw_payloads[i]));
            i = i + 1;
        }
        TemplateContext {
            kind: document.kind.to_string(),
            owner: document.owner.clone(),
            repo: document.repo.clone(),
            number: document.number,
            title: document.title.clone(),
            url: document.url.clone(),
            state: document.state.clone(),
            body: document.body.clone(),
            author: opt_actor_context(&document.author),
            author_association: copy_opt(&document.author_association),
            created_at: format_optional_datetime(document.created_at),
            updated_at: format_optional_datetime(document.updated_at),
            closed_at: format_optional_datetime(document.closed_at),
            state_reason: copy_opt(&document.state_reason),
            locked: document.locked,
            active_lock_reason: copy_opt(&document.active_lock_reason),
            merged_by: opt_actor_context(&document.merged_by),
            merge_commit_sha: copy_opt(&document.merge_commit_sha),
            mergeable_state: copy_opt(&document.mergeable_state),
            base: BranchRefContext::from_branch(&document.base),
            head: BranchRefContext::from_branch(&document.head),
            checks: check_contexts(&document.checks),
            labels,
            assignees: actor_contexts(&document.assignees),
            requested_reviewers: actor_contexts(&document.requested_reviewers),
            reactions: reaction_contexts(&document.reactions),
            metadata: field_contexts(&document.metadata),
            milestone: match &document.milestone {
                Some(m) => Some(MilestoneContext::from_milestone(m)),
                None => None,
            },
            comments,
            reviews,
            review_threads: threads,
            timeline,
            files: file_contexts(&document.files),
            commits,
            raw_payloads: payloads,
            merged_at: merged_at_value(document),
            draft: document.draft,
        }
    }
}

/// Whether every top-level comment's heading levels fit when shown at level 3.
pub fn comment_levels_fit_everywhere(document: &ExportDocument) -> (r: bool)
    ensures
        r == comment_levels_fit_all(*document),
{
    let mut i: usize = 0;
    while i < document.comments.len()
        invariant
            i <= document.comments@.len(),
            forall|j: int| 0 <= j < i ==> levels_fit(#[trigger] document.comments@[j], 3),
        decreases document.comments@.len() - i,
    {
        if !super::comment_levels_fit(&document.comments[i], 3) {
            return false;
        }
        i = i + 1;
    }
    true
}

} // verus!
