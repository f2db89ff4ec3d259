use ghdump::github::aggregate_reactions;
use ghdump::github::graphql::{
    reaction_rank, to_reactions, GraphQlReactionGroup, GraphQlUsersConnection, DISCUSSION_COMMENTS_QUERY,
    DISCUSSION_QUERY, DISCUSSION_REPLIES_QUERY, PULL_REQUEST_COMMENTS_QUERY, PULL_REQUEST_QUERY,
};
use ghdump::github::rest::{RestActor, RestReaction};

fn reaction(content: &str, login: &str) -> RestReaction {
    RestReaction {
        content: content.to_owned(),
        user: Some(RestActor {
            login: login.to_owned(),
            html_url: Some(format!("https://github.com/{login}")),
        }),
    }
}

#[test]
fn aggregate_reactions_counts_and_orders_known_reactions() {
    let reactions = vec![
        reaction("heart", "alice"),
        reaction("+1", "bob"),
        reaction("heart", "carol"),
        reaction("eyes", "dave"),
    ];

    assert_eq!(
        aggregate_reactions(reactions)
            .into_iter()
            .map(|reaction| (reaction.content, reaction.count))
            .collect::<Vec<_>>(),
        vec![
            ("+1".to_owned(), 1),
            ("heart".to_owned(), 2),
            ("eyes".to_owned(), 1),
        ]
    );
}

#[test]
fn aggregate_reactions_preserves_unknown_reactions_after_known_ones() {
    let reactions = vec![
        reaction("tada", "erin"),
        reaction("confused", "frank"),
        reaction("tada", "grace"),
    ];

    assert_eq!(
        aggregate_reactions(reactions)
            .into_iter()
            .map(|reaction| (reaction.content, reaction.count))
            .collect::<Vec<_>>(),
        vec![("confused".to_owned(), 1), ("tada".to_owned(), 2),]
    );
}

#[test]
fn aggregate_reactions_lists_each_user_once_in_first_seen_order() {
    let reactions = vec![
        reaction("heart", "bob"),
        reaction("heart", "alice"),
        reaction("heart", "bob"),
        RestReaction { content: "heart".to_owned(), user: None },
        reaction("zzz", "carol"),
        reaction("aaa", "dave"),
    ];
    let aggregated = aggregate_reactions(reactions);
    assert_eq!(aggregated.len(), 3);
    assert_eq!(aggregated[0].content, "heart");
    assert_eq!(aggregated[0].count, 4);
    let logins: Vec<_> = aggregated[0].users.iter().map(|u| u.login.clone()).collect();
    assert_eq!(logins, vec!["bob".to_owned(), "alice".to_owned()]);
    assert_eq!(
        aggregated[0].users[0].url.as_deref(),
        Some("https://github.com/bob")
    );
    assert_eq!(aggregated[1].content, "aaa");
    assert_eq!(aggregated[2].content, "zzz");
}

#[test]
fn aggregate_reactions_of_nothing_is_empty() {
    assert!(aggregate_reactions(Vec::new()).is_empty());
}

fn group(content: &str, total_count: u64) -> GraphQlReactionGroup {
    GraphQlReactionGroup {
        content: content.to_owned(),
        users: GraphQlUsersConnection { total_count, nodes: Vec::new() },
    }
}

#[test]
fn graphql_reactions_are_normalized_for_template_rendering() {
    let reactions = to_reactions(Some(&[group("HEART", 2), group("THUMBS_UP", 1), group("CUSTOM", 3)]));

    assert_eq!(
        reactions
            .into_iter()
            .map(|reaction| (reaction.content, reaction.count))
            .collect::<Vec<_>>(),
        vec![
            ("+1".to_owned(), 1),
            ("heart".to_owned(), 2),
            ("CUSTOM".to_owned(), 3),
        ]
    );
}

#[test]
fn graphql_reactions_drop_empty_groups_and_keep_order_of_equal_contents() {
    let mut first = group("EYES", 1);
    first.users.nodes.push(ghdump::github::graphql::GraphQlActor {
        login: "first".to_owned(),
        url: None,
    });
    let mut second = group("EYES", 2);
    second.users.nodes.push(ghdump::github::graphql::GraphQlActor {
        login: "second".to_owned(),
        url: Some("https://github.com/second".to_owned()),
    });
    let reactions = to_reactions(Some(&[group("ROCKET", 0), first, group("b", 1), second, group("a", 1)]));
    let summary: Vec<_> = reactions.iter().map(|r| (r.content.clone(), r.count)).collect();
    assert_eq!(
        summary,
        vec![
            ("eyes".to_owned(), 1),
            ("eyes".to_owned(), 2),
            ("a".to_owned(), 1),
            ("b".to_owned(), 1),
        ]
    );
    assert_eq!(reactions[0].users[0].login, "first");
    assert_eq!(reactions[1].users[0].url.as_deref(), Some("https://github.com/second"));
    assert!(to_reactions(None).is_empty());
}

#[test]
fn discussion_queries_only_expand_one_reply_level_per_request() {
    assert_eq!(DISCUSSION_QUERY.matches("replies(first: 100").count(), 1);
    assert_eq!(
        DISCUSSION_COMMENTS_QUERY
            .matches("replies(first: 100")
            .count(),
        1
    );
    assert_eq!(
        DISCUSSION_REPLIES_QUERY
            .matches("replies(first: 100")
            .count(),
        1
    );
}

#[test]
fn pull_request_queries_paginate_comments() {
    assert!(PULL_REQUEST_QUERY.contains("$cursor: String"));
    assert!(PULL_REQUEST_QUERY.contains("comments(first: 100, after: $cursor)"));
    assert!(PULL_REQUEST_COMMENTS_QUERY.contains("$cursor: String"));
    assert!(PULL_REQUEST_COMMENTS_QUERY.contains("comments(first: 100, after: $cursor)"));
}

#[test]
fn unknown_reaction_contents_rank_last() {
    assert_eq!(reaction_rank("+1"), 0);
    assert_eq!(reaction_rank("eyes"), 7);
    assert_eq!(reaction_rank("CUSTOM"), usize::MAX);
    assert_eq!(reaction_rank("tada"), usize::MAX);
}
