use ghdump::github::group_review_comments;
use ghdump::model::ReviewComment;

#[test]
fn groups_review_comments_when_child_precedes_parent() {
    let threads = group_review_comments(vec![
        ReviewComment {
            id: "child".to_owned(),
            in_reply_to: Some("parent".to_owned()),
            path: Some("src/lib.rs".to_owned()),
            body: "reply".to_owned(),
            ..ReviewComment::default()
        },
        ReviewComment {
            id: "parent".to_owned(),
            path: Some("src/lib.rs".to_owned()),
            body: "top-level".to_owned(),
            ..ReviewComment::default()
        },
    ]);

    assert_eq!(threads.len(), 1);
    assert_eq!(threads[0].id, "parent");
    assert_eq!(threads[0].comments.len(), 2);
    assert_eq!(threads[0].comments[0].id, "parent");
    assert_eq!(threads[0].comments[1].id, "child");
    assert_eq!(threads[0].path.as_deref(), Some("src/lib.rs"));
}

fn comment(id: &str, parent: Option<&str>, path: Option<&str>) -> ReviewComment {
    ReviewComment {
        id: id.to_owned(),
        in_reply_to: parent.map(str::to_owned),
        path: path.map(str::to_owned),
        ..ReviewComment::default()
    }
}

#[test]
fn separate_threads_keep_the_order_of_their_first_comment() {
    let threads = group_review_comments(vec![
        comment("b1", None, None),
        comment("a1", None, Some("a.rs")),
        comment("b2", Some("b1"), Some("b.rs")),
        comment("a2", Some("a1"), None),
        comment("orphan", Some("missing"), None),
    ]);
    let ids: Vec<_> = threads.iter().map(|t| t.id.clone()).collect();
    assert_eq!(ids, vec!["b1", "a1", "orphan"]);
    assert_eq!(threads[0].path.as_deref(), Some("b.rs"));
    assert_eq!(threads[1].path.as_deref(), Some("a.rs"));
    assert_eq!(threads[2].path, None);
    assert_eq!(threads[0].comments.len(), 2);
    assert!(threads.iter().all(|t| t.is_resolved.is_none() && t.is_outdated.is_none()));
}

#[test]
fn reply_cycles_end_the_walk() {
    let threads = group_review_comments(vec![
        comment("x", Some("y"), None),
        comment("y", Some("x"), None),
    ]);
    // From "x" the walk goes to "y", then back to "x", which it has passed: it stops at "x".
    // From "y" it stops at "y" in the same way.
    let ids: Vec<_> = threads.iter().map(|t| t.id.clone()).collect();
    assert_eq!(ids, vec!["x", "y"]);
    assert_eq!(threads[0].comments.len(), 1);
    assert_eq!(threads[0].comments[0].id, "x");
    assert_eq!(threads[1].comments[0].id, "y");
}

#[test]
fn deeper_replies_come_after_shallower_ones() {
    let threads = group_review_comments(vec![
        comment("c", Some("b"), None),
        comment("b", Some("a"), None),
        comment("a", None, None),
        comment("d", Some("a"), None),
    ]);
    assert_eq!(threads.len(), 1);
    let ids: Vec<_> = threads[0].comments.iter().map(|c| c.id.clone()).collect();
    assert_eq!(ids, vec!["a", "b", "d", "c"]);
}
