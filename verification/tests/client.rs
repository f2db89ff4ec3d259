use std::path::PathBuf;

use ghdump::cache::{auth_scope, now_unix_seconds, CacheConfig, CacheMode, CacheStore, CachedResponse};
use ghdump::cli::ResourceKind;
use ghdump::github::client::{
    api_path, fetch_route, graphql_cache_plan, graphql_errors_message, graphql_outcome, next_page,
    normalize_token, not_modified_body, offline_miss_message, rest_base, rest_cache_plan,
    rest_url, revalidation, FetchRoute, GraphQlCachePlan, RestCachePlan, Revalidation,
};

fn config(mode: CacheMode) -> CacheConfig {
    CacheConfig { mode, root: PathBuf::from("/tmp/ghdump-test-cache"), ttl_seconds: 300 }
}

#[test]
fn treats_blank_github_token_as_missing() {
    assert!(normalize_token(Some(String::new())).is_none());
    assert!(normalize_token(Some("   ".to_owned())).is_none());
    assert_eq!(normalize_token(Some("fixture-token".to_owned())).as_deref(), Some("fixture-token"));
    assert!(normalize_token(None).is_none());
}

#[test]
fn cache_keys_are_sha256_of_the_request_and_scope() {
    let cache = CacheStore::new(config(CacheMode::Auto), Some("test-token"));
    assert_eq!(
        cache.key("GET", "https://api.github.com/repos/example/repo", "version"),
        "e8911b05278a8e442d8cd1cae44b61392a37fd73a395fa5876011fda80951829"
    );
    let anonymous = CacheStore::new(config(CacheMode::Auto), None);
    assert_eq!(
        anonymous.key("GET", "https://api.github.com/repos/example/repo", "version"),
        "482ac881da7b76f48037419ad3bfafeae22909ea96d98e2fdb1b06e10e298b0e"
    );
}

#[test]
fn cache_keys_are_sixty_four_lower_case_hex_digits() {
    let cache = CacheStore::new(config(CacheMode::Auto), None);
    for key in [cache.key("", "", ""), cache.key("POST", "https://api.github.com/graphql", "{}")] {
        assert_eq!(key.len(), 64);
        assert!(key.chars().all(|c| c.is_ascii_digit() || ('a'..='f').contains(&c)));
    }
}

#[test]
fn padded_and_blank_tokens_share_scopes() {
    assert_eq!(auth_scope(Some("  abc \n")), "token-abc");
    assert_eq!(auth_scope(Some("   ")), "anonymous");
    assert_eq!(auth_scope(None), "anonymous");
    let padded = CacheStore::new(config(CacheMode::Auto), Some("  test-token  "));
    let bare = CacheStore::new(config(CacheMode::Auto), Some("test-token"));
    assert_eq!(padded.key("GET", "u", "v"), bare.key("GET", "u", "v"));
}

#[test]
fn cache_modes_decide_reads_and_writes() {
    let bypass = CacheStore::new(config(CacheMode::Bypass), None);
    assert!(!bypass.reads_entries());
    assert!(!bypass.writes_entries());
    let offline = CacheStore::new(config(CacheMode::Offline), None);
    assert!(offline.reads_entries());
    assert!(!offline.writes_entries());
    let auto = CacheStore::new(config(CacheMode::Auto), None);
    assert!(auto.reads_entries() && auto.writes_entries());
    assert_eq!(auto.mode(), CacheMode::Auto);
    assert_eq!(rest_cache_plan(CacheMode::Offline), RestCachePlan::RequireCached);
    assert_eq!(rest_cache_plan(CacheMode::Refresh), RestCachePlan::FetchFresh);
    assert_eq!(rest_cache_plan(CacheMode::Auto), RestCachePlan::Revalidate);
    assert_eq!(rest_cache_plan(CacheMode::Bypass), RestCachePlan::Revalidate);
    assert_eq!(graphql_cache_plan(CacheMode::Offline), GraphQlCachePlan::RequireCached);
    assert_eq!(graphql_cache_plan(CacheMode::Auto), GraphQlCachePlan::PreferCached);
    assert_eq!(graphql_cache_plan(CacheMode::Refresh), GraphQlCachePlan::FetchFresh);
    assert_eq!(graphql_cache_plan(CacheMode::Bypass), GraphQlCachePlan::FetchFresh);
}

#[test]
fn cached_responses_are_stamped_now() {
    let response = CachedResponse::new(Some("\"etag\"".to_owned()), None, serde_json::Value::Bool(true));
    assert_eq!(response.etag.as_deref(), Some("\"etag\""));
    assert!(response.last_modified.is_none());
    assert!(response.fetched_at >= 1_700_000_000);
    assert!(now_unix_seconds() >= response.fetched_at);
}

#[test]
fn revalidation_prefers_the_entity_tag() {
    let both = CachedResponse {
        etag: Some("\"e\"".to_owned()),
        last_modified: Some("Tue, 05 May 2026 12:00:00 GMT".to_owned()),
        fetched_at: 0,
        body: serde_json::Value::Null,
    };
    assert_eq!(revalidation(Some(&both)), Revalidation::IfNoneMatch("\"e\"".to_owned()));
    let date_only = CachedResponse { etag: None, ..both.clone() };
    assert_eq!(
        revalidation(Some(&date_only)),
        Revalidation::IfModifiedSince("Tue, 05 May 2026 12:00:00 GMT".to_owned())
    );
    let neither = CachedResponse { last_modified: None, ..date_only.clone() };
    assert_eq!(revalidation(Some(&neither)), Revalidation::Unconditional);
    assert_eq!(revalidation(None), Revalidation::Unconditional);
    assert_eq!(not_modified_body(Some(both)), Ok(serde_json::Value::Null));
    assert_eq!(
        not_modified_body(None),
        Err("REST response returned 304 without a cached body".to_owned())
    );
}

#[test]
fn rest_urls_join_below_the_base_and_page() {
    assert_eq!(rest_base("https://api.github.com"), "https://api.github.com/");
    assert_eq!(rest_base("https://ghe.example/api/v3/"), "https://ghe.example/api/v3/");
    assert_eq!(api_path("//repos/a/b"), "repos/a/b");
    let base = rest_base("https://ghe.example/api/v3");
    assert_eq!(
        rest_url(&base, "/repos/a/b/issues/1", None).as_deref(),
        Some("https://ghe.example/api/v3/repos/a/b/issues/1")
    );
    assert_eq!(
        rest_url(&base, "repos/a/b/issues/1/comments", Some(2)).as_deref(),
        Some("https://ghe.example/api/v3/repos/a/b/issues/1/comments?per_page=100&page=2")
    );
    assert_eq!(rest_url("not a url", "x", None), None);
}

#[test]
fn paging_stops_at_the_first_short_batch() {
    assert_eq!(next_page(1, 100), Some(2));
    assert_eq!(next_page(3, 99), None);
    assert_eq!(next_page(7, 0), None);
}

#[test]
fn graphql_errors_are_joined() {
    let messages = vec!["one".to_owned(), "two".to_owned()];
    assert_eq!(graphql_errors_message(&messages), "GraphQL returned errors: one; two");
    assert_eq!(graphql_outcome(Some(1), None), Ok(1));
    assert_eq!(
        graphql_outcome::<i32>(None, None),
        Err("GraphQL response contained no data".to_owned())
    );
    assert_eq!(
        graphql_outcome(Some(1), Some(vec!["bad".to_owned()])),
        Err("GraphQL returned errors: bad".to_owned())
    );
    assert_eq!(
        graphql_outcome(Some(1), Some(Vec::new())),
        Err("GraphQL returned errors: ".to_owned())
    );
    assert_eq!(
        offline_miss_message("https://api.github.com/x"),
        "cache miss for https://api.github.com/x while running with --offline"
    );
}

#[test]
fn discussions_need_a_token() {
    assert_eq!(
        fetch_route(ResourceKind::Discussion, false),
        Err("discussion export requires GITHUB_TOKEN because GitHub Discussions are accessed via GraphQL".to_owned())
    );
    assert_eq!(fetch_route(ResourceKind::Discussion, true), Ok(FetchRoute::Discussion));
    assert_eq!(fetch_route(ResourceKind::Issue, true), Ok(FetchRoute::GraphQlThenRest));
    assert_eq!(fetch_route(ResourceKind::PullRequest, false), Ok(FetchRoute::RestOnly));
}
