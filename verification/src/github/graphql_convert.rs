use vstd::prelude::*;

use crate::model::{
    Actor, Comment, CommitSummary, Label, MetadataField, Milestone, RawGraphQlRequest, Review,
    ReviewComment, ReviewThread,
};
use crate::text::{i64_to_decimal, lowercase, signed_decimal, to_lowercase};

use super::field_views;
use super::graphql::{
    are_group_reactions, graphql_actors_of, group_reactions, is_graphql_actor_of, to_actor,
    GraphQlActor, GraphQlDiscussionComment, GraphQlFullCommit, GraphQlIssueComment,
    GraphQlLabel, GraphQlMilestone, GraphQlPageInfo, GraphQlReactionGroup, GraphQlReview,
    GraphQlReviewComment, GraphQlReviewRequest, GraphQlReviewThread, GraphQlReviewer,
};

verus! {

/// The groups of optional reaction groups, as a spec value.
pub open spec fn opt_groups(g: Option<Vec<GraphQlReactionGroup>>) -> Option<Seq<GraphQlReactionGroup>> {
    match g {
        Some(v) => Some(v@),
        None => None,
    }
}

/// `out` is the model form of the optional GraphQL actor `a`.
pub open spec fn is_opt_graphql_actor_of(out: Option<Actor>, a: Option<GraphQlActor>) -> bool {
    match (out, a) {
        (Some(o), Some(a)) => is_graphql_actor_of(o, a),
        (None, None) => true,
        _ => false,
    }
}

pub fn to_opt_actor(actor: Option<GraphQlActor>) -> (r: Option<Actor>)
    ensures
        is_opt_graphql_actor_of(r, actor),
{
    match actor {
        Some(a) => Some(to_actor(a)),
        None => None,
    }
}

/// The actors, in order.
pub fn to_actor_list(actors: Vec<GraphQlActor>) -> (r: Vec<Actor>)
    ensures
        graphql_actors_of(r@, actors@),
{
    let ghost src = actors@;
    let mut actors = actors;
    let mut r: Vec<Actor> = Vec::new();
    let n = actors.len();
    let mut i: usize = 0;
    while i < n
        invariant
            n == src.len(),
            i <= n,
            actors@ == src.skip(i as int),
            r@.len() == i,
            forall|j: int| 0 <= j < i ==> is_graphql_actor_of(#[trigger] r@[j], src[j]),
        decreases n - i,
    {
        let a = actors.remove(0);
        assert(actors@ =~= src.skip(i as int + 1));
        r.push(to_actor(a));
        i = i + 1;
    }
    r
}

/// `out` is the model label for the GraphQL label `l`.
pub open spec fn is_graphql_label_of(out: Label, l: GraphQlLabel) -> bool {
    out.name == l.name && out.color == l.color && out.description == l.description
}

pub fn to_label(label: GraphQlLabel) -> (r: Label)
    ensures
        is_graphql_label_of(r, label),
{
    Label { name: label.name, color: label.color, description: label.description }
}

/// `out` holds, in order, the model labels for the GraphQL labels `ls`.
pub open spec fn graphql_labels_of(out: Seq<Label>, ls: Seq<GraphQlLabel>) -> bool {
    out.len() == ls.len() && forall|i: int| 0 <= i < ls.len() ==> is_graphql_label_of(#[trigger] out[i], ls[i])
}

pub fn to_label_list(labels: Vec<GraphQlLabel>) -> (r: Vec<Label>)
    ensures
        graphql_labels_of(r@, labels@),
{
    let ghost src = labels@;
    let mut labels = labels;
    let mut r: Vec<Label> = Vec::new();
    let n = labels.len();
    let mut i: usize = 0;
    while i < n
        invariant
            n == src.len(),
            i <= n,
            labels@ == src.skip(i as int),
            r@.len() == i,
            forall|j: int| 0 <= j < i ==> is_graphql_label_of(#[trigger] r@[j], src[j]),
        decreases n - i,
    {
        let l = labels.remove(0);
        assert(labels@ =~= src.skip(i as int + 1));
        r.push(to_label(l));
        i = i + 1;
    }
    r
}

/// `out` is the model milestone for the GraphQL milestone `m`: its state lower-cased.
pub open spec fn is_graphql_milestone_of(out: Milestone, m: GraphQlMilestone) -> bool {
    &&& out.title == m.title
    &&& out.state matches Some(s) && s@ == lowercase(m.state@)
    &&& out.due_on == m.due_on
    &&& out.url == Some(m.url)
}

pub fn to_milestone(m: GraphQlMilestone) -> (r: Milestone)
    ensures
        is_graphql_milestone_of(r, m),
{
    let state = to_lowercase(m.state.as_str());
    Milestone { title: m.title, state: Some(state), due_on: m.due_on, url: Some(m.url) }
}

/// `out` is the model form of the optional GraphQL milestone `m`.
pub open spec fn is_opt_graphql_milestone_of(out: Option<Milestone>, m: Option<GraphQlMilestone>) -> bool {
    match (out, m) {
        (Some(o), Some(m)) => is_graphql_milestone_of(o, m),
        (None, None) => true,
        _ => false,
    }
}

pub fn to_opt_milestone(m: Option<GraphQlMilestone>) -> (r: Option<Milestone>)
    ensures
        is_opt_graphql_milestone_of(r, m),
{
    match m {
        Some(m) => Some(to_milestone(m)),
        None => None,
    }
}

/// `out` is the model comment for the GraphQL issue or pull request comment `c`.
pub open spec fn is_graphql_comment_of(out: Comment, c: GraphQlIssueComment) -> bool {
    &&& out.id == c.id && out.url == c.url
    &&& is_opt_graphql_actor_of(out.author, c.author)
    &&& out.author_association == c.author_association
    &&& out.body == c.body
    &&& out.created_at == Some(c.created_at) && out.updated_at == Some(c.updated_at)
    &&& are_group_reactions(out.reactions@, opt_groups(c.reaction_groups))
    &&& out.metadata@.len() == 0 && out.replies@.len() == 0 && !out.is_answer
}

pub fn to_comment(c: GraphQlIssueComment) -> (r: Comment)
    ensures
        is_graphql_comment_of(r, c),
{
    let reactions = group_reactions(&c.reaction_groups);
    Comment {
        id: c.id,
        url: c.url,
        author: to_opt_actor(c.author),
        author_association: c.author_association,
        body: c.body,
        created_at: Some(c.created_at),
        updated_at: Some(c.updated_at),
        reactions,
        metadata: Vec::new(),
        replies: Vec::new(),
        is_answer: false,
    }
}

/// `out` holds, in order, the model comments for the GraphQL comments `cs`.
pub open spec fn graphql_comments_of(out: Seq<Comment>, cs: Seq<GraphQlIssueComment>) -> bool {
    out.len() == cs.len() && forall|i: int| 0 <= i < cs.len() ==> is_graphql_comment_of(#[trigger] out[i], cs[i])
}

pub fn to_comments(comments: Vec<GraphQlIssueComment>) -> (r: Vec<Comment>)
    ensures
        graphql_comments_of(r@, comments@),
{
    let ghost src = comments@;
    let mut comments = comments;
    let mut r: Vec<Comment> = Vec::new();
    let n = comments.len();
    let mut i: usize = 0;
    while i < n
        invariant
            n == src.len(),
            i <= n,
            comments@ == src.skip(i as int),
            r@.len() == i,
            forall|j: int| 0 <= j < i ==> is_graphql_comment_of(#[trigger] r@[j], src[j]),
        decreases n - i,
    {
        let c = comments.remove(0);
        assert(comments@ =~= src.skip(i as int + 1));
        r.push(to_comment(c));
        i = i + 1;
    }
    r
}

/// `out` is the model review for the GraphQL review `r`: its state as GraphQL gives it,
/// no reactions, and the id of its commit.
pub open spec fn is_graphql_review_of(out: Review, r: GraphQlReview) -> bool {
    &&& out.id == r.id && out.url == r.url
    &&& is_opt_graphql_actor_of(out.author, r.author)
    &&& out.author_association == r.author_association
    &&& out.state == r.state && out.body == r.body
    &&& out.submitted_at == r.submitted_at
    &&& out.commit_id == match r.commit {
        Some(c) => Some(c.oid),
        None => None,
    }
    &&& out.reactions@.len() == 0
}

pub fn to_review(r: GraphQlReview) -> (out: Review)
    ensures
        is_graphql_review_of(out, r),
{
    Review {
        id: r.id,
        url: r.url,
        author: to_opt_actor(r.author),
        author_association: r.author_association,
        state: r.state,
        body: r.body,
        submitted_at: r.submitted_at,
        commit_id: match r.commit {
            Some(c) => Some(c.oid),
            None => None,
        },
        reactions: Vec::new(),
    }
}

/// `out` holds, in order, the model reviews for the GraphQL reviews `rs`.
pub open spec fn graphql_reviews_of(out: Seq<Review>, rs: Seq<GraphQlReview>) -> bool {
    out.len() == rs.len() && forall|i: int| 0 <= i < rs.len() ==> is_graphql_review_of(#[trigger] out[i], rs[i])
}

pub fn to_reviews(reviews: Vec<GraphQlReview>) -> (r: Vec<Review>)
    ensures
        graphql_reviews_of(r@, reviews@),
{
    let ghost src = reviews@;
    let mut reviews = reviews;
    let mut r: Vec<Review> = Vec::new();
    let n = reviews.len();
    let mut i: usize = 0;
    while i < n
        invariant
            n == src.len(),
            i <= n,
            reviews@ == src.skip(i as int),
            r@.len() == i,
            forall|j: int| 0 <= j < i ==> is_graphql_review_of(#[trigger] r@[j], src[j]),
        decreases n - i,
    {
        let x = reviews.remove(0);
        assert(reviews@ =~= src.skip(i as int + 1));
        r.push(to_review(x));
        i = i + 1;
    }
    r
}

/// `out` is the model review comment for the GraphQL review comment `c`.
pub open spec fn is_graphql_review_comment_of(out: ReviewComment, c: GraphQlReviewComment) -> bool {
    &&& out.id == c.id && out.url == c.url
    &&& is_opt_graphql_actor_of(out.author, c.author)
    &&& out.author_association == c.author_association
    &&& out.body == c.body
    &&& out.created_at == Some(c.created_at) && out.updated_at == Some(c.updated_at)
    &&& out.path == c.path && out.line == c.line && out.start_line == c.start_line
    &&& out.diff_hunk == c.diff_hunk
    &&& out.in_reply_to == match c.reply_to {
        Some(x) => Some(x.id),
        None => None,
    }
    &&& out.review_id == match c.pull_request_review {
        Some(x) => Some(x.id),
        None => None,
    }
    &&& out.is_minimized is None && out.minimized_reason is None
    &&& are_group_reactions(out.reactions@, opt_groups(c.reaction_groups))
}

pub fn to_review_comment(c: GraphQlReviewComment) -> (r: ReviewComment)
    ensures
        is_graphql_review_comment_of(r, c),
{
    let reactions = group_reactions(&c.reaction_groups);
    ReviewComment {
        id: c.id,
        url: c.url,
        author: to_opt_actor(c.author),
        author_association: c.author_association,
        body: c.body,
        created_at: Some(c.created_at),
        updated_at: Some(c.updated_at),
        path: c.path,
        line: c.line,
        start_line: c.start_line,
        diff_hunk: c.diff_hunk,
        in_reply_to: match c.reply_to {
            Some(x) => Some(x.id),
            None => None,
        },
        review_id: match c.pull_request_review {
            Some(x) => Some(x.id),
            None => None,
        },
        is_minimized: None,
        minimized_reason: None,
        reactions,
    }
}

/// `out` is the review thread for the GraphQL thread `t` with all its comments `cs`.
pub open spec fn is_graphql_thread_of(out: ReviewThread, t: GraphQlReviewThread, cs: Seq<GraphQlReviewComment>) -> bool {
    &&& out.id == t.id && out.path == t.path
    &&& out.is_resolved == Some(t.is_resolved) && out.is_outdated == Some(t.is_outdated)
    &&& out.comments@.len() == cs.len()
    &&& forall|i: int| 0 <= i < cs.len() ==> is_graphql_review_comment_of(#[trigger] out.comments@[i], cs[i])
}

/// The review thread for a GraphQL thread, given all of its comments.
pub fn review_thread_of(thread: GraphQlReviewThread, comments: Vec<GraphQlReviewComment>) -> (r: ReviewThread)
    ensures
        is_graphql_thread_of(r, thread, comments@),
{
    let ghost src = comments@;
    let mut comments = comments;
    let mut out: Vec<ReviewComment> = Vec::new();
    let n = comments.len();
    let mut i: usize = 0;
    while i < n
        invariant
            n == src.len(),
            i <= n,
            comments@ == src.skip(i as int),
            out@.len() == i,
            forall|j: int| 0 <= j < i ==> is_graphql_review_comment_of(#[trigger] out@[j], src[j]),
        decreases n - i,
    {
        let c = comments.remove(0);
        assert(comments@ =~= src.skip(i as int + 1));
        out.push(to_review_comment(c));
        i = i + 1;
    }
    ReviewThread {
        id: thread.id,
        path: thread.path,
        is_resolved: Some(thread.is_resolved),
        is_outdated: Some(thread.is_outdated),
        comments: out,
    }
}

/// `out` is the model commit for the GraphQL commit `c`: no files.
pub open spec fn is_graphql_commit_of(out: CommitSummary, c: GraphQlFullCommit) -> bool {
    &&& out.sha == c.oid && out.url == Some(c.url) && out.message == c.message
    &&& out.author_name == Some(c.author.name) && out.authored_at == c.author.date
    &&& is_opt_graphql_actor_of(out.author_user, c.author.user)
    &&& out.files@.len() == 0
}

pub fn to_commit_summary(c: GraphQlFullCommit) -> (r: CommitSummary)
    ensures
        is_graphql_commit_of(r, c),
{
    CommitSummary {
        sha: c.oid,
        url: Some(c.url),
        message: c.message,
        author_name: Some(c.author.name),
        authored_at: c.author.date,
        author_user: to_opt_actor(c.author.user),
        files: Vec::new(),
    }
}

/// The users among the accounts whose review a pull request asks for, in their order.
pub open spec fn reviewer_users(requests: Seq<GraphQlReviewRequest>) -> Seq<GraphQlActor>
    decreases requests.len(),
{
    if requests.len() == 0 {
        Seq::empty()
    } else {
        let rest = reviewer_users(requests.drop_last());
        match requests.last().requested_reviewer {
            Some(GraphQlReviewer::User(u)) => rest.push(u),
            _ => rest,
        }
    }
}

pub fn requested_reviewers(requests: Vec<GraphQlReviewRequest>) -> (r: Vec<Actor>)
    ensures
        graphql_actors_of(r@, reviewer_users(requests@)),
{
    let ghost src = requests@;
    let mut requests = requests;
    let mut r: Vec<Actor> = Vec::new();
    let n = requests.len();
    let mut i: usize = 0;
    while i < n
        invariant
            n == src.len(),
            i <= n,
            requests@ == src.skip(i as int),
            graphql_actors_of(r@, reviewer_users(src.take(i as int))),
        decreases n - i,
    {
        let x = requests.remove(0);
        assert(requests@ =~= src.skip(i as int + 1));
        assert(src.take(i as int + 1).drop_last() =~= src.take(i as int));
        assert(x == src[i as int]);
        match x.requested_reviewer {
            Some(GraphQlReviewer::User(u)) => {
                r.push(to_actor(u));
            },
            _ => {},
        }
        i = i + 1;
    }
    assert(src.take(n as int) =~= src);
    r
}

/// The metadata of a discussion comment: its upvotes, and when it was published where known.
pub open spec fn discussion_comment_metadata(c: GraphQlDiscussionComment) -> Seq<(Seq<char>, Seq<char>)> {
    let base = seq![("Upvotes"@, signed_decimal(c.upvote_count as int))];
    match c.published_at {
        Some(t) => match crate::model::rfc3339_text(t.seconds, t.nanos) {
            Some(text) => base.push(("Published"@, text)),
            None => base,
        },
        None => base,
    }
}

/// `out` is the model comment for the discussion comment `c` with the replies `replies`.
pub open spec fn is_discussion_comment_of(out: Comment, c: GraphQlDiscussionComment, replies: Seq<Comment>) -> bool {
    &&& out.id == c.id && out.url == c.url
    &&& is_opt_graphql_actor_of(out.author, c.author)
    &&& out.author_association == c.author_association
    &&& out.body == c.body
    &&& out.created_at == Some(c.created_at) && out.updated_at == Some(c.updated_at)
    &&& are_group_reactions(out.reactions@, opt_groups(c.reaction_groups))
    &&& field_views(out.metadata@) == discussion_comment_metadata(c)
    &&& out.replies@ == replies
    &&& out.is_answer == c.is_answer
}

/// The model comment for a discussion comment, given its rendered replies.
pub fn discussion_comment_of(c: GraphQlDiscussionComment, replies: Vec<Comment>) -> (r: Comment)
    ensures
        is_discussion_comment_of(r, c, replies@),
        c.published_at matches Some(t) ==> (crate::model::rfc3339_text(t.seconds, t.nanos) is Some
            <==> t.is_representable()),
{
    let ghost g = c;
    let reactions = group_reactions(&c.reaction_groups);
    let mut metadata: Vec<MetadataField> = Vec::new();
    assert(field_views(metadata@) =~= Seq::<(Seq<char>, Seq<char>)>::empty());
    super::push_field(&mut metadata, "Upvotes", i64_to_decimal(c.upvote_count));
    assert(field_views(metadata@) =~= seq![("Upvotes"@, signed_decimal(g.upvote_count as int))]);
    if let Some(t) = c.published_at {
        if let Some(text) = crate::model::timestamp_to_rfc3339(t) {
            super::push_field(&mut metadata, "Published", text);
        }
    }
    Comment {
        id: c.id,
        url: c.url,
        author: to_opt_actor(c.author),
        author_association: c.author_association,
        body: c.body,
        created_at: Some(c.created_at),
        updated_at: Some(c.updated_at),
        reactions,
        metadata,
        replies,
        is_answer: c.is_answer,
    }
}

/// The node a GraphQL query looked up inside a repository: an error where the repository
/// or the node (`what`) was not found.
pub fn require_found<T>(repository: Option<Option<T>>, what: &str) -> (r: Result<T, String>)
    ensures
        match repository {
            None => r matches Err(m) && m@ == "repository not found"@,
            Some(None) => r matches Err(m) && m@ == what@ + " not found"@,
            Some(Some(x)) => r == Ok::<T, String>(x),
        },
{
    match repository {
        None => Err(String::from_str("repository not found")),
        Some(None) => Err(crate::text::concat2(what, " not found")),
        Some(Some(x)) => Ok(x),
    }
}

/// The record of one GraphQL request: its query and variables.
pub fn graphql_request(query: &str, variables: &serde_json::Value) -> (r: RawGraphQlRequest)
    ensures
        r.query@ == query@,
        r.variables == *variables,
{
    RawGraphQlRequest { query: String::from_str(query), variables: variables.clone() }
}

/// Adds one page of a paginated GraphQL connection to what was collected, and says where
/// to continue: `Some(cursor)` while there is a next page, `None` at the last one.
pub fn collect_page<T>(items: &mut Vec<T>, nodes: Vec<T>, info: GraphQlPageInfo) -> (next: Option<Option<String>>)
    ensures
        final(items)@ == old(items)@ + nodes@,
        next == if info.has_next_page {
            Some(info.end_cursor)
        } else {
            None
        },
{
    let ghost added = nodes@;
    let mut nodes = nodes;
    items.append(&mut nodes);
    if info.has_next_page {
        Some(info.end_cursor)
    } else {
        None
    }
}

} // verus!
