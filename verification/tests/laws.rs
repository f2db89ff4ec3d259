use ghdump::model::{format_optional_datetime, Timestamp};
use ghdump::github::aggregate_reactions;
use ghdump::github::graphql::normalize_graphql_reaction_content;
use ghdump::github::group_review_comments;
use ghdump::github::rest::{RestActor, RestReaction};
use ghdump::model::ReviewComment;
use ghdump::text::{parse_u64, trim, u64_to_decimal};

#[test]
fn aggregated_counts_add_up_to_the_reactions() {
    let contents = ["heart", "+1", "tada", "heart", "eyes", "tada", "heart"];
    let reactions: Vec<RestReaction> = contents
        .iter()
        .map(|c| RestReaction {
            content: c.to_string(),
            user: Some(RestActor { login: "u".to_owned(), html_url: None }),
        })
        .collect();
    let total: u64 = aggregate_reactions(reactions).iter().map(|r| r.count).sum();
    assert_eq!(total, contents.len() as u64);
}

#[test]
fn threads_hold_every_comment() {
    let comment = |id: &str, parent: Option<&str>| ReviewComment {
        id: id.to_owned(),
        in_reply_to: parent.map(str::to_owned),
        ..ReviewComment::default()
    };
    let threads = group_review_comments(vec![
        comment("a", None),
        comment("b", Some("a")),
        comment("c", None),
        comment("d", Some("b")),
        comment("e", Some("missing")),
        comment("a", None),
    ]);
    let total: usize = threads.iter().map(|t| t.comments.len()).sum();
    assert_eq!(total, 6);
}

#[test]
fn normalizing_twice_is_normalizing_once() {
    for content in ["THUMBS_UP", "EYES", "CUSTOM", "+1", "heart", ""] {
        let once = normalize_graphql_reaction_content(content);
        assert_eq!(normalize_graphql_reaction_content(&once), once);
    }
    assert_eq!(normalize_graphql_reaction_content("THUMBS_DOWN"), "-1");
}

#[test]
fn decimal_text_reads_back() {
    for n in [0u64, 7, 42, 1_000_000, u64::MAX] {
        assert_eq!(parse_u64(&u64_to_decimal(n)), Some(n));
    }
    assert_eq!(parse_u64("+12"), Some(12));
    assert_eq!(parse_u64("18446744073709551616"), None);
    assert_eq!(parse_u64(""), None);
}

#[test]
fn trimming_twice_is_trimming_once() {
    for s in ["  a b  ", "\t\n", "x", "", " \u{a0}y\u{3000} "] {
        let once = trim(s);
        assert_eq!(trim(&once), once);
        assert_eq!(once, s.trim());
    }
}

#[test]
fn representable_instants_always_have_rfc3339_text() {
    let text = |seconds: i64, nanos: u32| format_optional_datetime(Some(Timestamp { seconds, nanos }));
    assert_eq!(text(0, 0).as_deref(), Some("1970-01-01T00:00:00+00:00"));
    assert_eq!(text(1_714_298_400, 0).as_deref(), Some("2024-04-28T10:00:00+00:00"));
    assert_eq!(text(-8_334_601_228_800, 0).as_deref(), Some("-262143-01-01T00:00:00+00:00"));
    assert!(text(-8_334_601_228_801, 999_999_999).is_none());
    assert!(text(8_210_266_876_799, 999_999_999).is_some());
    assert!(text(8_210_266_876_799, 1_999_999_999).is_some());
    assert!(text(8_210_266_876_800, 0).is_none());
    assert!(text(59, 1_500_000_000).is_some());
    assert!(text(58, 1_500_000_000).is_none());
    assert!(text(59, 2_000_000_000).is_none());
    assert!(text(0, 1_000_000_000).is_none());
    assert!(format_optional_datetime(None).is_none());
}
