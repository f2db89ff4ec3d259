use vstd::prelude::*;

use crate::cache::{auth_scope_text, CacheConfig, CacheMode, CachedResponse};
use crate::cli::ResourceKind;
use crate::text::{decimal_digits, push_char, trim, trim_spec, u64_to_decimal};

verus! {

/// The REST API version that every request asks for.
pub const GITHUB_API_VERSION: &'static str = "2026-03-10";

/// Where the GitHub APIs are, how the client introduces itself, and how it caches.
#[derive(Clone, Debug)]
pub struct GitHubConfig {
    pub api_base_url: String,
    pub graphql_url: String,
    pub user_agent: String,
    pub cache: CacheConfig,
}

/// Whether a token is usable: present and not blank.
pub open spec fn usable_token(token: Option<String>) -> bool {
    match token {
        Some(t) => trim_spec(t@).len() > 0,
        None => false,
    }
}

/// The token the client works with: the given one, unless it is missing or blank.
pub fn normalize_token(token: Option<String>) -> (r: Option<String>)
    ensures
        r == (if usable_token(token) {
            token
        } else {
            None
        }),
{
    match token {
        Some(t) => {
            let trimmed = trim(t.as_str());
            if trimmed.unicode_len() > 0 {
                Some(t)
            } else {
                None
            }
        },
        None => None,
    }
}

/// A token that is missing or blank is treated alike: the client holds none, and the
/// cache scope of the token it holds is that of the token it was given.
pub proof fn law_blank_token_is_missing(token: Option<String>)
    ensures
        usable_token(token) <==> (token matches Some(t) && trim_spec(t@).len() > 0),
        auth_scope_text(opt_text(if usable_token(token) { token } else { None })) == auth_scope_text(opt_text(token)),
{
}

/// White space around a token does not change the scope of the cache entries it reads.
pub proof fn law_padded_token_same_scope(t: Seq<char>)
    ensures
        auth_scope_text(Some(t)) == auth_scope_text(Some(trim_spec(t))),
{
    crate::text::law_trim_idempotent(t);
}

/// A base URL that ends with `/`, so that paths join below it.
pub open spec fn with_trailing_slash(s: Seq<char>) -> Seq<char> {
    if s.len() > 0 && s.last() == '/' {
        s
    } else {
        s.push('/')
    }
}

pub fn rest_base(api_base_url: &str) -> (r: String)
    ensures
        r@ == with_trailing_slash(api_base_url@),
{
    let mut base = String::from_str(api_base_url);
    let n = api_base_url.unicode_len();
    if n == 0 || api_base_url.get_char(n - 1) != '/' {
        push_char(&mut base, '/');
    }
    base
}

/// `s` without its leading slashes, as `str::trim_start_matches('/')` gives it.
pub open spec fn strip_leading_slashes(s: Seq<char>) -> Seq<char>
    decreases s.len(),
{
    if s.len() > 0 && s[0] == '/' {
        strip_leading_slashes(s.drop_first())
    } else {
        s
    }
}

pub fn api_path(path: &str) -> (r: String)
    ensures
        r@ == strip_leading_slashes(path@),
{
    let n = path.unicode_len();
    let mut start: usize = 0;
    assert(path@.skip(0) =~= path@);
    while start < n && path.get_char(start) == '/'
        invariant
            n == path@.len(),
            start <= n,
            strip_leading_slashes(path@) == strip_leading_slashes(path@.skip(start as int)),
        decreases n - start,
    {
        assert(path@.skip(start as int).drop_first() =~= path@.skip(start + 1));
        start = start + 1;
    }
    assert(path@.skip(start as int) =~= path@.subrange(start as int, n as int));
    String::from_str(path.substring_char(start, n))
}

/// What `url::Url::parse(base)` and then `Url::join(path)` give, serialized by
/// `Url::to_string`: `None` where either refuses its input.
pub uninterp spec fn joined_url(base: Seq<char>, path: Seq<char>) -> Option<Seq<char>>;

/// What `url::Url::parse(url)` and then one `append_pair(key, value)` on its query give,
/// serialized by `Url::to_string`: `None` where the URL does not parse.
pub uninterp spec fn url_with_pair(url: Seq<char>, key: Seq<char>, value: Seq<char>) -> Option<Seq<char>>;

/// The text of an optional string.
pub open spec fn opt_text(s: Option<String>) -> Option<Seq<char>> {
    match s {
        Some(s) => Some(s@),
        None => None,
    }
}

/// Calls `url::Url::parse` on `base` and `Url::join` with `path`, and serializes the
/// result. URL resolution is not restated: the contract names the result `joined_url`.
#[verifier::external_body]
fn join_url(base: &str, path: &str) -> (r: Option<String>)
    ensures
        opt_text(r) == joined_url(base@, path@),
{
    match url::Url::parse(base) {
        Ok(b) => match b.join(path) {
            Ok(u) => Some(u.to_string()),
            Err(_) => None,
        },
        Err(_) => None,
    }
}

/// Calls `url::Url::parse` on `url` and appends one `key=value` pair to its query with
/// `form_urlencoded::Serializer::append_pair`. The encoding is not restated: the
/// contract names the result `url_with_pair`.
#[verifier::external_body]
fn append_query_pair(url: &str, key: &str, value: &str) -> (r: Option<String>)
    ensures
        opt_text(r) == url_with_pair(url@, key@, value@),
{
    match url::Url::parse(url) {
        Ok(mut u) => {
            u.query_pairs_mut().append_pair(key, value);
            Some(u.to_string())
        },
        Err(_) => None,
    }
}

/// The number of items asked for per page of a paginated REST listing.
pub const PAGE_SIZE: usize = 100;

/// The URL of a REST path below `base`: leading slashes of the path dropped, and for a
/// page of a listing, `per_page=100` and `page=<page>` appended to the query.
pub open spec fn rest_url_spec(base: Seq<char>, path: Seq<char>, page: Option<u32>) -> Option<Seq<char>> {
    match joined_url(base, strip_leading_slashes(path)) {
        None => None,
        Some(u) => match page {
            None => Some(u),
            Some(p) => match url_with_pair(u, "per_page"@, "100"@) {
                Some(u2) => url_with_pair(u2, "page"@, decimal_digits(p as nat)),
                None => None,
            },
        },
    }
}

pub fn rest_url(base: &str, path: &str, page: Option<u32>) -> (r: Option<String>)
    ensures
        opt_text(r) == rest_url_spec(base@, path@, page),
{
    let relative = api_path(path);
    let joined = join_url(base, relative.as_str());
    match joined {
        None => None,
        Some(u) => match page {
            None => Some(u),
            Some(p) => {
                let sized = append_query_pair(u.as_str(), "per_page", "100");
                match sized {
                    Some(u2) => {
                        let number = u64_to_decimal(p as u64);
                        append_query_pair(u2.as_str(), "page", number.as_str())
                    },
                    None => None,
                }
            },
        },
    }
}

/// The page to fetch after a batch of `batch_len` items from page `page`: none when the
/// batch was not full.
pub open spec fn next_page_spec(page: u32, batch_len: nat) -> Option<u32> {
    if batch_len < PAGE_SIZE {
        None
    } else {
        Some((page + 1) as u32)
    }
}

pub fn next_page(page: u32, batch_len: usize) -> (r: Option<u32>)
    requires
        batch_len >= PAGE_SIZE ==> page < u32::MAX,
    ensures
        r == next_page_spec(page, batch_len as nat),
{
    if batch_len < PAGE_SIZE {
        None
    } else {
        Some(page + 1)
    }
}

/// How a REST request uses the cache.
#[derive(Clone, Copy, Debug, PartialEq, Eq, Structural)]
pub enum RestCachePlan {
    /// Answer from the cache alone.
    RequireCached,
    /// Read the cached entry, if any, and revalidate it with the server.
    Revalidate,
    /// Ask the server without consulting the cache.
    FetchFresh,
}

pub fn rest_cache_plan(mode: CacheMode) -> (r: RestCachePlan)
    ensures
        r == (match mode {
            CacheMode::Offline => RestCachePlan::RequireCached,
            CacheMode::Refresh => RestCachePlan::FetchFresh,
            _ => RestCachePlan::Revalidate,
        }),
{
    match mode {
        CacheMode::Offline => RestCachePlan::RequireCached,
        CacheMode::Refresh => RestCachePlan::FetchFresh,
        _ => RestCachePlan::Revalidate,
    }
}

/// How a GraphQL request uses the cache.
#[derive(Clone, Copy, Debug, PartialEq, Eq, Structural)]
pub enum GraphQlCachePlan {
    /// Answer from the cache alone.
    RequireCached,
    /// Answer from the cache where it holds the response, else ask the server.
    PreferCached,
    /// Ask the server without consulting the cache.
    FetchFresh,
}

pub fn graphql_cache_plan(mode: CacheMode) -> (r: GraphQlCachePlan)
    ensures
        r == (match mode {
            CacheMode::Offline => GraphQlCachePlan::RequireCached,
            CacheMode::Auto => GraphQlCachePlan::PreferCached,
            _ => GraphQlCachePlan::FetchFresh,
        }),
{
    match mode {
        CacheMode::Offline => GraphQlCachePlan::RequireCached,
        CacheMode::Auto => GraphQlCachePlan::PreferCached,
        _ => GraphQlCachePlan::FetchFresh,
    }
}

/// The conditional header that revalidates a cached REST response.
#[derive(Clone, Debug, PartialEq, Eq)]
pub enum Revalidation {
    /// `If-None-Match` with the cached entity tag.
    IfNoneMatch(String),
    /// `If-Modified-Since` with the cached modification date.
    IfModifiedSince(String),
    /// No condition: nothing was cached, or the entry has no validator.
    Unconditional,
}

/// The entity tag of a cached entry is preferred to its modification date.
pub fn revalidation(cached: Option<&CachedResponse>) -> (r: Revalidation)
    ensures
        match cached {
            Some(c) => match (c.etag, c.last_modified) {
                (Some(e), _) => r == Revalidation::IfNoneMatch(e),
                (None, Some(m)) => r == Revalidation::IfModifiedSince(m),
                (None, None) => r == Revalidation::Unconditional,
            },
            None => r == Revalidation::Unconditional,
        },
{
    match cached {
        Some(c) => match &c.etag {
            Some(e) => Revalidation::IfNoneMatch(e.clone()),
            None => match &c.last_modified {
                Some(m) => Revalidation::IfModifiedSince(m.clone()),
                None => Revalidation::Unconditional,
            },
        },
        None => Revalidation::Unconditional,
    }
}

/// The body to use when the server answers `304 Not Modified`: the cached one; without
/// a cached entry the answer is an error.
pub fn not_modified_body(cached: Option<CachedResponse>) -> (r: Result<serde_json::Value, String>)
    ensures
        match cached {
            Some(c) => r == Ok::<serde_json::Value, String>(c.body),
            None => r matches Err(m) && m@ == "REST response returned 304 without a cached body"@,
        },
{
    match cached {
        Some(c) => Ok(c.body),
        None => Err(String::from_str("REST response returned 304 without a cached body")),
    }
}

/// `parts` joined with `sep` between them.
pub open spec fn joined(parts: Seq<Seq<char>>, sep: Seq<char>) -> Seq<char>
    decreases parts.len(),
{
    if parts.len() == 0 {
        Seq::empty()
    } else if parts.len() == 1 {
        parts[0]
    } else {
        joined(parts.drop_last(), sep) + sep + parts.last()
    }
}

/// The views of a vector of strings.
pub open spec fn texts(v: Seq<String>) -> Seq<Seq<char>> {
    v.map_values(|s: String| s@)
}

/// The error reported for a GraphQL response that carries errors: their messages joined
/// by `; `.
pub fn graphql_errors_message(messages: &Vec<String>) -> (r: String)
    ensures
        r@ == "GraphQL returned errors: "@ + joined(texts(messages@), "; "@),
{
    let mut out = String::from_str("GraphQL returned errors: ");
    let ghost head = out@;
    let mut i: usize = 0;
    while i < messages.len()
        invariant
            i <= messages@.len(),
            head == "GraphQL returned errors: "@,
            out@ == head + joined(texts(messages@.take(i as int)), "; "@),
        decreases messages@.len() - i,
    {
        let ghost before = texts(messages@.take(i as int));
        if i > 0 {
            out.append("; ");
        }
        out.append(messages[i].as_str());
        proof {
            let after = texts(messages@.take(i as int + 1));
            assert(after.drop_last() =~= before);
            assert(after.last() == messages@[i as int]@);
            if i == 0 {
                assert(before.len() == 0);
                assert(joined(after, "; "@) == after[0]);
                assert(out@ =~= head + joined(after, "; "@));
            } else {
                assert(out@ =~= head + joined(after, "; "@));
            }
        }
        i = i + 1;
    }
    assert(messages@.take(messages@.len() as int) =~= messages@);
    out
}

/// The error for a request that the cache cannot answer while running offline.
pub fn offline_miss_message(label: &str) -> (r: String)
    ensures
        r@ == "cache miss for "@ + label@ + " while running with --offline"@,
{
    crate::text::concat3("cache miss for ", label, " while running with --offline")
}

/// What a GraphQL response body amounts to: an error where it lists errors (even none),
/// else its data, else an error for the missing data.
pub fn graphql_outcome<T>(data: Option<T>, errors: Option<Vec<String>>) -> (r: Result<T, String>)
    ensures
        match errors {
            Some(ms) => r matches Err(m) && m@ == "GraphQL returned errors: "@ + joined(texts(ms@), "; "@),
            None => match data {
                Some(d) => r == Ok::<T, String>(d),
                None => r matches Err(m) && m@ == "GraphQL response contained no data"@,
            },
        },
{
    match errors {
        Some(ms) => Err(graphql_errors_message(&ms)),
        None => match data {
            Some(d) => Ok(d),
            None => Err(String::from_str("GraphQL response contained no data")),
        },
    }
}

/// Which way a document is fetched.
#[derive(Clone, Copy, Debug, PartialEq, Eq, Structural)]
pub enum FetchRoute {
    /// Through the GraphQL API, falling back to REST where it fails.
    GraphQlThenRest,
    /// Through the REST API alone.
    RestOnly,
    /// A discussion, through the GraphQL API.
    Discussion,
}

/// The error for a discussion asked for without a token.
pub open spec fn discussion_needs_token() -> Seq<char> {
    "discussion export requires GITHUB_TOKEN because GitHub Discussions are accessed via GraphQL"@
}

/// Issues and pull requests go through GraphQL first when there is a token, through REST
/// alone otherwise; discussions need a token.
pub fn fetch_route(kind: ResourceKind, token_available: bool) -> (r: Result<FetchRoute, String>)
    ensures
        match kind {
            ResourceKind::Discussion => if token_available {
                r == Ok::<FetchRoute, String>(FetchRoute::Discussion)
            } else {
                r matches Err(m) && m@ == discussion_needs_token()
            },
            _ => r == Ok::<FetchRoute, String>(
                if token_available {
                    FetchRoute::GraphQlThenRest
                } else {
                    FetchRoute::RestOnly
                },
            ),
        },
{
    match kind {
        ResourceKind::Discussion => {
            if token_available {
                Ok(FetchRoute::Discussion)
            } else {
                Err(
                    String::from_str(
                        "discussion export requires GITHUB_TOKEN because GitHub Discussions are accessed via GraphQL",
                    ),
                )
            }
        },
        _ => {
            if token_available {
                Ok(FetchRoute::GraphQlThenRest)
            } else {
                Ok(FetchRoute::RestOnly)
            }
        },
    }
}

} // verus!
