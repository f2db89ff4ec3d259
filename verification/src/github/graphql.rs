use vstd::prelude::*;

use crate::model::{Actor, Reaction, Timestamp};
use crate::text::str_eq;

use super::reaction_order::{insert_key, string_views, strictly_ordered};

verus! {

#[derive(Clone, Debug)]
pub struct GraphQlPageInfo {
    pub has_next_page: bool,
    pub end_cursor: Option<String>,
}

#[derive(Clone, Debug)]
pub struct GraphQlActor {
    pub login: String,
    pub url: Option<String>,
}

#[derive(Clone, Debug)]
pub struct GraphQlLabel {
    pub name: String,
    pub color: Option<String>,
    pub description: Option<String>,
}

#[derive(Clone, Debug)]
pub struct GraphQlUsersConnection {
    pub total_count: u64,
    pub nodes: Vec<GraphQlActor>,
}

#[derive(Clone, Debug)]
pub struct GraphQlReactionGroup {
    pub content: String,
    pub users: GraphQlUsersConnection,
}

#[derive(Clone, Debug)]
pub struct GraphQlLabelConnection {
    pub nodes: Vec<GraphQlLabel>,
}

#[derive(Clone, Debug)]
pub struct GraphQlActorConnection {
    pub nodes: Vec<GraphQlActor>,
}

#[derive(Clone, Debug)]
pub struct GraphQlMilestone {
    pub title: String,
    pub state: String,
    pub due_on: Option<Timestamp>,
    pub url: String,
}

#[derive(Clone, Debug)]
pub struct GraphQlIssueComment {
    pub id: String,
    pub url: String,
    pub body: String,
    pub author: Option<GraphQlActor>,
    pub author_association: Option<String>,
    pub created_at: Timestamp,
    pub updated_at: Timestamp,
    pub reaction_groups: Option<Vec<GraphQlReactionGroup>>,
}

#[derive(Clone, Debug)]
pub struct GraphQlIssueCommentConnection {
    pub page_info: GraphQlPageInfo,
    pub nodes: Vec<GraphQlIssueComment>,
}

#[derive(Clone, Debug)]
pub struct GraphQlIssue {
    pub id: String,
    pub number: i64,
    pub title: String,
    pub url: String,
    pub body: String,
    pub state: String,
    pub state_reason: Option<String>,
    pub author: Option<GraphQlActor>,
    pub author_association: Option<String>,
    pub created_at: Timestamp,
    pub updated_at: Timestamp,
    pub closed_at: Option<Timestamp>,
    pub locked: bool,
    pub active_lock_reason: Option<String>,
    pub milestone: Option<GraphQlMilestone>,
    pub labels: GraphQlLabelConnection,
    pub assignees: GraphQlActorConnection,
    pub reaction_groups: Option<Vec<GraphQlReactionGroup>>,
    pub comments: GraphQlIssueCommentConnection,
}

#[derive(Clone, Debug)]
pub struct GraphQlRepoRef {
    pub name_with_owner: String,
}

#[derive(Clone, Debug)]
pub struct GraphQlCommitRef {
    pub oid: String,
}

/// The kind of account a pull request asks to review it; only user accounts count.
#[derive(Clone, Debug)]
pub enum GraphQlReviewer {
    User(GraphQlActor),
    Team,
    Mannequin,
    Bot,
}

#[derive(Clone, Debug)]
pub struct GraphQlReviewRequest {
    pub requested_reviewer: Option<GraphQlReviewer>,
}

#[derive(Clone, Debug)]
pub struct GraphQlReviewRequestConnection {
    pub nodes: Vec<GraphQlReviewRequest>,
}

#[derive(Clone, Debug)]
pub struct GraphQlReview {
    pub id: String,
    pub url: String,
    pub state: String,
    pub body: String,
    pub author: Option<GraphQlActor>,
    pub author_association: Option<String>,
    pub submitted_at: Option<Timestamp>,
    pub commit: Option<GraphQlCommitRef>,
}

#[derive(Clone, Debug)]
pub struct GraphQlReviewConnection {
    pub nodes: Vec<GraphQlReview>,
}

#[derive(Clone, Debug)]
pub struct GraphQlGitActor {
    pub name: String,
    pub date: Option<Timestamp>,
    pub user: Option<GraphQlActor>,
}

#[derive(Clone, Debug)]
pub struct GraphQlFullCommit {
    pub oid: String,
    pub url: String,
    pub message: String,
    pub author: GraphQlGitActor,
}

#[derive(Clone, Debug)]
pub struct GraphQlPullRequestCommit {
    pub commit: GraphQlFullCommit,
}

#[derive(Clone, Debug)]
pub struct GraphQlCommitConnection {
    pub total_count: i64,
    pub nodes: Vec<GraphQlPullRequestCommit>,
}

#[derive(Clone, Debug)]
pub struct GraphQlReviewCommentRef {
    pub id: String,
}

#[derive(Clone, Debug)]
pub struct GraphQlPullRequestReviewRef {
    pub id: String,
}

#[derive(Clone, Debug)]
pub struct GraphQlReviewComment {
    pub id: String,
    pub url: String,
    pub body: String,
    pub created_at: Timestamp,
    pub updated_at: Timestamp,
    pub author: Option<GraphQlActor>,
    pub author_association: Option<String>,
    pub diff_hunk: Option<String>,
    pub path: Option<String>,
    pub line: Option<i64>,
    pub start_line: Option<i64>,
    pub reaction_groups: Option<Vec<GraphQlReactionGroup>>,
    pub reply_to: Option<GraphQlReviewCommentRef>,
    pub pull_request_review: Option<GraphQlPullRequestReviewRef>,
}

#[derive(Clone, Debug)]
pub struct GraphQlReviewCommentConnection {
    pub page_info: GraphQlPageInfo,
    pub nodes: Vec<GraphQlReviewComment>,
}

#[derive(Clone, Debug)]
pub struct GraphQlReviewThread {
    pub id: String,
    pub is_resolved: bool,
    pub is_outdated: bool,
    pub path: Option<String>,
    pub comments: GraphQlReviewCommentConnection,
}

#[derive(Clone, Debug)]
pub struct GraphQlReviewThreadConnection {
    pub page_info: GraphQlPageInfo,
    pub nodes: Vec<GraphQlReviewThread>,
}

#[derive(Clone, Debug)]
pub struct GraphQlPullRequest {
    pub id: String,
    pub number: i64,
    pub title: String,
    pub url: String,
    pub body: String,
    pub state: String,
    pub is_draft: bool,
    pub merged: bool,
    pub merged_at: Option<Timestamp>,
    pub merged_by: Option<GraphQlActor>,
    pub mergeable: String,
    pub author: Option<GraphQlActor>,
    pub author_association: Option<String>,
    pub created_at: Timestamp,
    pub updated_at: Timestamp,
    pub closed_at: Option<Timestamp>,
    pub labels: GraphQlLabelConnection,
    pub assignees: GraphQlActorConnection,
    pub milestone: Option<GraphQlMilestone>,
    pub reaction_groups: Option<Vec<GraphQlReactionGroup>>,
    pub comments: GraphQlIssueCommentConnection,
    pub review_requests: GraphQlReviewRequestConnection,
    pub reviews: GraphQlReviewConnection,
    pub review_threads: GraphQlReviewThreadConnection,
    pub commits: GraphQlCommitConnection,
    pub base_ref_name: String,
    pub base_repository: Option<GraphQlRepoRef>,
    pub head_ref_name: String,
    pub head_repository: Option<GraphQlRepoRef>,
    pub additions: i64,
    pub deletions: i64,
    pub changed_files: i64,
    pub potential_merge_commit: Option<GraphQlCommitRef>,
}

#[derive(Clone, Debug)]
pub struct GraphQlDiscussionCategory {
    pub name: String,
    pub slug: String,
}

#[derive(Debug)]
pub struct GraphQlDiscussionComment {
    pub id: String,
    pub url: String,
    pub body: String,
    pub created_at: Timestamp,
    pub updated_at: Timestamp,
    pub published_at: Option<Timestamp>,
    pub author: Option<GraphQlActor>,
    pub author_association: Option<String>,
    pub is_answer: bool,
    pub upvote_count: i64,
    pub reaction_groups: Option<Vec<GraphQlReactionGroup>>,
    pub replies: Option<GraphQlDiscussionCommentConnection>,
}

#[derive(Debug)]
pub struct GraphQlDiscussionCommentConnection {
    pub page_info: GraphQlPageInfo,
    pub nodes: Vec<GraphQlDiscussionComment>,
}

#[derive(Debug)]
pub struct GraphQlDiscussion {
    pub id: String,
    pub number: i64,
    pub title: String,
    pub url: String,
    pub body: String,
    pub created_at: Timestamp,
    pub updated_at: Timestamp,
    pub closed: bool,
    pub closed_at: Option<Timestamp>,
    pub locked: bool,
    pub author: Option<GraphQlActor>,
    pub author_association: Option<String>,
    pub category: GraphQlDiscussionCategory,
    pub answer_chosen_at: Option<Timestamp>,
    pub answer_chosen_by: Option<GraphQlActor>,
    pub labels: GraphQlLabelConnection,
    pub reaction_groups: Option<Vec<GraphQlReactionGroup>>,
    pub comments: GraphQlDiscussionCommentConnection,
}

/// `out` is the model actor for the GraphQL actor `a`.
pub open spec fn is_graphql_actor_of(out: Actor, a: GraphQlActor) -> bool {
    out.login == a.login && out.url == a.url
}

/// `out` holds, in order, the model actors for the GraphQL actors `src`.
pub open spec fn graphql_actors_of(out: Seq<Actor>, src: Seq<GraphQlActor>) -> bool {
    out.len() == src.len() && forall|i: int|
        0 <= i < src.len() ==> is_graphql_actor_of(#[trigger] out[i], src[i])
}

pub fn to_actor(actor: GraphQlActor) -> (r: Actor)
    ensures
        is_graphql_actor_of(r, actor),
{
    Actor { login: actor.login, url: actor.url }
}

fn to_actors(actors: &Vec<GraphQlActor>) -> (r: Vec<Actor>)
    ensures
        graphql_actors_of(r@, actors@),
{
    let mut r: Vec<Actor> = Vec::new();
    let mut i: usize = 0;
    while i < actors.len()
        invariant
            i <= actors@.len(),
            graphql_actors_of(r@, actors@.take(i as int)),
        decreases actors@.len() - i,
    {
        let a = &actors[i];
        r.push(Actor { login: a.login.clone(), url: crate::text::copy_opt(&a.url) });
        i = i + 1;
    }
    assert(actors@.take(actors@.len() as int) =~= actors@);
    r
}

/// GraphQL reaction contents (`THUMBS_UP`, `HEART`, ...) under the names that the REST
/// API and the templates use (`+1`, `heart`, ...); any other content is kept as it is.
pub open spec fn normalized_content(c: Seq<char>) -> Seq<char> {
    if c == "THUMBS_UP"@ {
        "+1"@
    } else if c == "THUMBS_DOWN"@ {
        "-1"@
    } else if c == "LAUGH"@ {
        "laugh"@
    } else if c == "HOORAY"@ {
        "hooray"@
    } else if c == "CONFUSED"@ {
        "confused"@
    } else if c == "HEART"@ {
        "heart"@
    } else if c == "ROCKET"@ {
        "rocket"@
    } else if c == "EYES"@ {
        "eyes"@
    } else {
        c
    }
}

/// Normalizing a content twice gives what normalizing it once gives.
pub proof fn law_normalize_idempotent(c: Seq<char>)
    ensures
        normalized_content(normalized_content(c)) == normalized_content(c),
{
    let n = normalized_content(c);
    if n != c {
        reveal_strlit("THUMBS_UP");
        reveal_strlit("THUMBS_DOWN");
        reveal_strlit("LAUGH");
        reveal_strlit("HOORAY");
        reveal_strlit("CONFUSED");
        reveal_strlit("HEART");
        reveal_strlit("ROCKET");
        reveal_strlit("EYES");
        reveal_strlit("+1");
        reveal_strlit("-1");
        reveal_strlit("laugh");
        reveal_strlit("hooray");
        reveal_strlit("confused");
        reveal_strlit("heart");
        reveal_strlit("rocket");
        reveal_strlit("eyes");
        assert(!starts_upper(n));
        assert(starts_upper("THUMBS_UP"@) && starts_upper("THUMBS_DOWN"@) && starts_upper("LAUGH"@));
        assert(starts_upper("HOORAY"@) && starts_upper("CONFUSED"@) && starts_upper("HEART"@));
        assert(starts_upper("ROCKET"@) && starts_upper("EYES"@));
        assert(n != "THUMBS_UP"@ && n != "THUMBS_DOWN"@ && n != "LAUGH"@ && n != "HOORAY"@);
        assert(n != "CONFUSED"@ && n != "HEART"@ && n != "ROCKET"@ && n != "EYES"@);
    }
}

/// The text starts with an upper-case ASCII letter.
pub open spec fn starts_upper(s: Seq<char>) -> bool {
    s.len() > 0 && 'A' <= s[0] && s[0] <= 'Z'
}

pub fn normalize_graphql_reaction_content(content: &str) -> (r: String)
    ensures
        r@ == normalized_content(content@),
{
    if str_eq(content, "THUMBS_UP") {
        String::from_str("+1")
    } else if str_eq(content, "THUMBS_DOWN") {
        String::from_str("-1")
    } else if str_eq(content, "LAUGH") {
        String::from_str("laugh")
    } else if str_eq(content, "HOORAY") {
        String::from_str("hooray")
    } else if str_eq(content, "CONFUSED") {
        String::from_str("confused")
    } else if str_eq(content, "HEART") {
        String::from_str("heart")
    } else if str_eq(content, "ROCKET") {
        String::from_str("rocket")
    } else if str_eq(content, "EYES") {
        String::from_str("eyes")
    } else {
        String::from_str(content)
    }
}

/// The rank of a reaction content in GitHub's order of reactions.
pub fn reaction_rank(content: &str) -> (r: usize)
    ensures
        r == super::reaction_order::reaction_rank(content@),
{
    super::reaction_order::reaction_rank_of(content)
}

/// The reaction groups that have at least one reaction and whose normalized content is `k`,
/// in their order.
pub open spec fn groups_with(gs: Seq<GraphQlReactionGroup>, k: Seq<char>) -> Seq<
    GraphQlReactionGroup,
>
    decreases gs.len(),
{
    if gs.len() == 0 {
        Seq::empty()
    } else {
        let prev = groups_with(gs.drop_last(), k);
        let g = gs.last();
        if g.users.total_count > 0 && normalized_content(g.content@) == k {
            prev.push(g)
        } else {
            prev
        }
    }
}

/// The groups of each key in `keys`, one key after the other.
pub open spec fn grouped(keys: Seq<Seq<char>>, gs: Seq<GraphQlReactionGroup>) -> Seq<
    GraphQlReactionGroup,
>
    decreases keys.len(),
{
    if keys.len() == 0 {
        Seq::empty()
    } else {
        grouped(keys.drop_last(), gs) + groups_with(gs, keys.last())
    }
}

/// The normalized contents of the groups that have at least one reaction.
pub open spec fn present_contents(gs: Seq<GraphQlReactionGroup>) -> Set<Seq<char>> {
    Set::new(
        |k: Seq<char>|
            exists|i: int|
                0 <= i < gs.len() && #[trigger] gs[i].users.total_count > 0
                    && normalized_content(gs[i].content@) == k,
    )
}

/// `out` is the model reaction for the GraphQL reaction group `g`.
pub open spec fn is_reaction_of_group(out: Reaction, g: GraphQlReactionGroup) -> bool {
    &&& out.content@ == normalized_content(g.content@)
    &&& out.count == g.users.total_count
    &&& graphql_actors_of(out.users@, g.users.nodes@)
}

fn reaction_of_group(g: &GraphQlReactionGroup) -> (r: Reaction)
    ensures
        is_reaction_of_group(r, *g),
{
    Reaction {
        content: normalize_graphql_reaction_content(g.content.as_str()),
        count: g.users.total_count,
        users: to_actors(&g.users.nodes),
    }
}

/// `out` lists the reactions of the GraphQL reaction groups `groups`: those of the groups
/// with reactions, grouped by normalized content, the contents in GitHub's reaction order.
pub open spec fn are_group_reactions(out: Seq<Reaction>, groups: Option<Seq<GraphQlReactionGroup>>) -> bool {
    match groups {
        None => out.len() == 0,
        Some(gs) => exists|keys: Seq<Seq<char>>|
            {
                &&& strictly_ordered(keys)
                &&& keys.to_set() == present_contents(gs)
                &&& out.len() == grouped(keys, gs).len()
                &&& forall|i: int|
                    0 <= i < out.len() ==> is_reaction_of_group(#[trigger] out[i], grouped(keys, gs)[i])
            },
    }
}

/// The reactions of optional reaction groups.
pub fn group_reactions(groups: &Option<Vec<GraphQlReactionGroup>>) -> (out: Vec<Reaction>)
    ensures
        are_group_reactions(
            out@,
            match groups {
                Some(gs) => Some(gs@),
                None => None,
            },
        ),
{
    match groups {
        Some(gs) => to_reactions(Some(gs.as_slice())),
        None => to_reactions(None),
    }
}

/// Turns GraphQL reaction groups into model reactions: groups without reactions are left
/// out, contents are normalized, and the reactions are listed in GitHub's reaction order
/// (the known contents in their fixed order, then other contents lexicographically);
/// groups of the same content keep their relative order.
pub fn to_reactions(groups: Option<&[GraphQlReactionGroup]>) -> (out: Vec<Reaction>)
    ensures
        are_group_reactions(
            out@,
            match groups {
                Some(gs) => Some(gs@),
                None => None,
            },
        ),
{
    let gs = match groups {
        Some(gs) => gs,
        None => {
            return Vec::new();
        },
    };
    let mut keys: Vec<String> = Vec::new();
    let mut i: usize = 0;
    while i < gs.len()
        invariant
            i <= gs@.len(),
            strictly_ordered(string_views(keys@)),
            string_views(keys@).to_set() == present_contents(gs@.take(i as int)),
        decreases gs@.len() - i,
    {
        let ghost before = string_views(keys@).to_set();
        if gs[i].users.total_count > 0 {
            let k = normalize_graphql_reaction_content(gs[i].content.as_str());
            insert_key(&mut keys, &k);
        }
        proof {
            let prev = gs@.take(i as int);
            let next = gs@.take(i + 1);
            assert forall|k: Seq<char>|
                present_contents(next).contains(k) <==> string_views(keys@).to_set().contains(
                    k,
                ) by {
                if present_contents(next).contains(k) {
                    let j = choose|j: int|
                        0 <= j < next.len() && #[trigger] next[j].users.total_count > 0
                            && normalized_content(next[j].content@) == k;
                    if j < i {
                        assert(prev[j] == next[j]);
                        assert(present_contents(prev).contains(k));
                    }
                }
                if present_contents(prev).contains(k) {
                    let j = choose|j: int|
                        0 <= j < prev.len() && #[trigger] prev[j].users.total_count > 0
                            && normalized_content(prev[j].content@) == k;
                    assert(next[j] == prev[j]);
                }
                if gs@[i as int].users.total_count > 0 && k == normalized_content(gs@[i as int].content@) {
                    assert(next[i as int] == gs@[i as int]);
                }
            }
            assert(present_contents(next) =~= string_views(keys@).to_set());
        }
        i = i + 1;
    }
    assert(gs@.take(gs@.len() as int) =~= gs@);
    let ghost key_views = string_views(keys@);
    let mut out: Vec<Reaction> = Vec::new();
    let mut j: usize = 0;
    while j < keys.len()
        invariant
            j <= keys@.len(),
            key_views == string_views(keys@),
            out@.len() == grouped(key_views.take(j as int), gs@).len(),
            forall|t: int|
                0 <= t < out@.len() ==> is_reaction_of_group(
                    #[trigger] out@[t],
                    grouped(key_views.take(j as int), gs@)[t],
                ),
        decreases keys@.len() - j,
    {
        let ghost base = grouped(key_views.take(j as int), gs@);
        let ghost k = key_views[j as int];
        let mut t: usize = 0;
        while t < gs.len()
            invariant
                j < keys@.len(),
                t <= gs@.len(),
                k == keys@[j as int]@,
                out@.len() == base.len() + groups_with(gs@.take(t as int), k).len(),
                forall|x: int|
                    0 <= x < out@.len() ==> is_reaction_of_group(
                        #[trigger] out@[x],
                        (base + groups_with(gs@.take(t as int), k))[x],
                    ),
            decreases gs@.len() - t,
        {
            let ghost pre = groups_with(gs@.take(t as int), k);
            assert(gs@.take(t + 1).drop_last() =~= gs@.take(t as int));
            assert(gs@.take(t + 1).last() == gs@[t as int]);
            if gs[t].users.total_count > 0 {
                let r = reaction_of_group(&gs[t]);
                if str_eq(r.content.as_str(), keys[j].as_str()) {
                    out.push(r);
                    proof {
                        assert(groups_with(gs@.take(t + 1), k) == pre.push(gs@[t as int]));
                        assert(base + pre.push(gs@[t as int]) =~= (base + pre).push(gs@[t as int]));
                    }
                } else {
                    assert(groups_with(gs@.take(t + 1), k) == pre);
                }
            } else {
                assert(groups_with(gs@.take(t + 1), k) == pre);
            }
            t = t + 1;
        }
        proof {
            assert(gs@.take(gs@.len() as int) =~= gs@);
            assert(key_views.take(j + 1).drop_last() =~= key_views.take(j as int));
            assert(key_views.take(j + 1).last() == k);
        }
        j = j + 1;
    }
    assert(key_views.take(keys@.len() as int) =~= key_views);
    assert(strictly_ordered(key_views) && key_views.to_set() == present_contents(gs@));
    out
}

pub const DISCUSSION_QUERY: &'static str = r#"
query Discussion($owner: String!, $repo: String!, $number: Int!, $cursor: String) {
  repository(owner: $owner, name: $repo) {
    discussion(number: $number) {
      id
      number
      title
      url
      body
      createdAt
      updatedAt
      closed
      closedAt
      locked
      author {
        login
        url
      }
      authorAssociation
      category {
        name
        slug
      }
      answerChosenAt
      answerChosenBy {
        login
        url
      }
      labels(first: 100) {
        nodes {
          name
          color
          description
        }
      }
      reactionGroups {
        content
        users(first: 10) {
          totalCount
                    nodes {
                        login
                        url
                    }
        }
      }
      comments(first: 100, after: $cursor) {
        pageInfo {
          hasNextPage
          endCursor
        }
        nodes {
          id
          url
          body
          createdAt
          updatedAt
          publishedAt
          author {
            login
            url
          }
          authorAssociation
          isAnswer
          upvoteCount
          reactionGroups {
            content
            users(first: 10) {
              totalCount
                            nodes {
                                login
                                url
                            }
            }
          }
          replies(first: 100) {
            pageInfo {
              hasNextPage
              endCursor
            }
            nodes {
              id
              url
              body
              createdAt
              updatedAt
              publishedAt
              author {
                login
                url
              }
              authorAssociation
              isAnswer
              upvoteCount
              reactionGroups {
                content
                users(first: 10) {
                  totalCount
                                    nodes {
                                        login
                                        url
                                    }
                }
              }
            }
          }
        }
      }
    }
  }
}
"#;

pub const DISCUSSION_COMMENTS_QUERY: &'static str = r#"
query DiscussionComments($owner: String!, $repo: String!, $number: Int!, $cursor: String) {
  repository(owner: $owner, name: $repo) {
    discussion(number: $number) {
      comments(first: 100, after: $cursor) {
        pageInfo {
          hasNextPage
          endCursor
        }
        nodes {
          id
          url
          body
          createdAt
          updatedAt
          publishedAt
          author {
            login
            url
          }
          authorAssociation
          isAnswer
          upvoteCount
          reactionGroups {
            content
            users(first: 10) {
              totalCount
                            nodes {
                                login
                                url
                            }
            }
          }
          replies(first: 100) {
            pageInfo {
              hasNextPage
              endCursor
            }
            nodes {
              id
              url
              body
              createdAt
              updatedAt
              publishedAt
              author {
                login
                url
              }
              authorAssociation
              isAnswer
              upvoteCount
              reactionGroups {
                content
                users(first: 10) {
                  totalCount
                                    nodes {
                                        login
                                        url
                                    }
                }
              }
            }
          }
        }
      }
    }
  }
}
"#;

pub const DISCUSSION_REPLIES_QUERY: &'static str = r#"
query DiscussionReplies($id: ID!, $cursor: String) {
  node(id: $id) {
    ... on DiscussionComment {
      replies(first: 100, after: $cursor) {
        pageInfo {
          hasNextPage
          endCursor
        }
        nodes {
          id
          url
          body
          createdAt
          updatedAt
          publishedAt
          author {
            login
            url
          }
          authorAssociation
          isAnswer
          upvoteCount
        reactionGroups {
          content
          users(first: 10) {
            totalCount
                        nodes {
                            login
                            url
                        }
          }
        }
        }
      }
    }
  }
}
"#;

pub const PULL_REQUEST_THREADS_QUERY: &'static str = r#"
query PullRequestThreads($owner: String!, $repo: String!, $number: Int!, $cursor: String) {
  repository(owner: $owner, name: $repo) {
    pullRequest(number: $number) {
      reviewThreads(first: 100, after: $cursor) {
        pageInfo {
          hasNextPage
          endCursor
        }
        nodes {
          id
          isResolved
          isOutdated
          path
          comments(first: 100) {
            pageInfo {
              hasNextPage
              endCursor
            }
            nodes {
              id
              url
              body
              createdAt
              updatedAt
              author {
                login
                url
              }
              authorAssociation
              diffHunk
              path
              line
              startLine
              reactionGroups {
                content
                users(first: 10) {
                  totalCount
                                    nodes {
                                        login
                                        url
                                    }
                }
              }
              replyTo {
                id
              }
              pullRequestReview {
                id
              }
            }
          }
        }
      }
    }
  }
}
"#;

pub const PULL_REQUEST_QUERY: &'static str = r#"
query PullRequest($owner: String!, $repo: String!, $number: Int!, $cursor: String) {
  repository(owner: $owner, name: $repo) {
    pullRequest(number: $number) {
      id
      number
      title
      url
      body
      state
      isDraft
      merged
      mergedAt
      mergedBy {
        login
        url
      }
      mergeable
      author {
        login
        url
      }
      authorAssociation
      createdAt
      updatedAt
      closedAt
      additions
      deletions
      changedFiles
      baseRefName
      baseRepository {
        nameWithOwner
      }
      headRefName
      headRepository {
        nameWithOwner
      }
      potentialMergeCommit {
        oid
      }
      labels(first: 100) {
        nodes {
          name
          color
          description
        }
      }
      assignees(first: 100) {
        nodes {
          login
          url
        }
      }
      milestone {
        title
        state
        dueOn
        url
      }
      reactionGroups {
        content
        users(first: 10) {
          totalCount
          nodes {
            login
            url
          }
        }
      }
      comments(first: 100, after: $cursor) {
        pageInfo {
          hasNextPage
          endCursor
        }
        nodes {
          id
          url
          body
          author {
            login
            url
          }
          authorAssociation
          createdAt
          updatedAt
          reactionGroups {
            content
            users(first: 10) {
              totalCount
              nodes {
                login
                url
              }
            }
          }
        }
      }
      reviewRequests(first: 100) {
        nodes {
          requestedReviewer {
            __typename
            ... on User {
              login
              url
            }
          }
        }
      }
      reviews(first: 100) {
        nodes {
          id
          url
          state
          body
          author {
            login
            url
          }
          authorAssociation
          submittedAt
          commit {
            oid
          }
        }
      }
      reviewThreads(first: 100) {
        pageInfo {
          hasNextPage
          endCursor
        }
        nodes {
          id
          isResolved
          isOutdated
          path
          comments(first: 100) {
            pageInfo {
              hasNextPage
              endCursor
            }
            nodes {
              id
              url
              body
              createdAt
              updatedAt
              author {
                login
                url
              }
              authorAssociation
              diffHunk
              path
              line
              startLine
              reactionGroups {
                content
                users(first: 10) {
                  totalCount
                  nodes {
                    login
                    url
                  }
                }
              }
              replyTo {
                id
              }
              pullRequestReview {
                id
              }
            }
          }
        }
      }
      commits(first: 100) {
        totalCount
        nodes {
          commit {
            oid
            url
            message
            author {
              name
              date
              user {
                login
                url
              }
            }
          }
        }
      }
    }
  }
}
"#;

pub const PULL_REQUEST_COMMENTS_QUERY: &'static str = r#"
query PullRequestComments($owner: String!, $repo: String!, $number: Int!, $cursor: String) {
  repository(owner: $owner, name: $repo) {
    pullRequest(number: $number) {
      comments(first: 100, after: $cursor) {
        pageInfo {
          hasNextPage
          endCursor
        }
        nodes {
          id
          url
          body
          author {
            login
            url
          }
          authorAssociation
          createdAt
          updatedAt
          reactionGroups {
            content
            users(first: 10) {
              totalCount
              nodes {
                login
                url
              }
            }
          }
        }
      }
    }
  }
}
"#;

pub const PULL_REQUEST_THREAD_COMMENTS_QUERY: &'static str = r#"
query PullRequestThreadComments($id: ID!, $cursor: String) {
  node(id: $id) {
    ... on PullRequestReviewThread {
      comments(first: 100, after: $cursor) {
        pageInfo {
          hasNextPage
          endCursor
        }
        nodes {
          id
          url
          body
          createdAt
          updatedAt
          author {
            login
            url
          }
          authorAssociation
          diffHunk
          path
          line
          startLine
          reactionGroups {
            content
            users(first: 10) {
              totalCount
                            nodes {
                                login
                                url
                            }
            }
          }
          replyTo {
            id
          }
          pullRequestReview {
            id
          }
        }
      }
    }
  }
}
"#;

pub const ISSUE_QUERY: &'static str = r#"
query Issue($owner: String!, $repo: String!, $number: Int!, $cursor: String) {
  repository(owner: $owner, name: $repo) {
    issue(number: $number) {
      id
      number
      title
      url
      body
      state
      stateReason
      author {
        login
        url
      }
      authorAssociation
      createdAt
      updatedAt
      closedAt
      locked
      activeLockReason
      milestone {
        title
        state
        dueOn
        url
      }
      labels(first: 100) {
        nodes {
          name
          color
          description
        }
      }
      assignees(first: 100) {
        nodes {
          login
          url
        }
      }
      reactionGroups {
        content
        users(first: 10) {
          totalCount
          nodes {
            login
            url
          }
        }
      }
      comments(first: 100, after: $cursor) {
        pageInfo {
          hasNextPage
          endCursor
        }
        nodes {
          id
          url
          body
          author {
            login
            url
          }
          authorAssociation
          createdAt
          updatedAt
          reactionGroups {
            content
            users(first: 10) {
              totalCount
              nodes {
                login
                url
              }
            }
          }
        }
      }
    }
  }
}
"#;

pub const ISSUE_COMMENTS_QUERY: &'static str = r#"
query IssueComments($owner: String!, $repo: String!, $number: Int!, $cursor: String) {
  repository(owner: $owner, name: $repo) {
    issue(number: $number) {
      comments(first: 100, after: $cursor) {
        pageInfo {
          hasNextPage
          endCursor
        }
        nodes {
          id
          url
          body
          author {
            login
            url
          }
          authorAssociation
          createdAt
          updatedAt
          reactionGroups {
            content
            users(first: 10) {
              totalCount
              nodes {
                login
                url
              }
            }
          }
        }
      }
    }
  }
}
"#;

} // verus!
