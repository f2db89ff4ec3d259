use vstd::prelude::*;

use std::path::PathBuf;

use sha2::Digest;

use crate::text::{concat2, push_char, trim, trim_spec};

verus! {

/// How the HTTP cache is used.
#[derive(Clone, Copy, Debug, PartialEq, Eq, Structural)]
pub enum CacheMode {
    /// Read cached responses and revalidate them; store new ones.
    Auto,
    /// Neither read nor store anything.
    Bypass,
    /// Ignore cached responses, fetch everything again and store it.
    Refresh,
    /// Answer from the cache alone; a miss is an error.
    Offline,
}

#[derive(Clone, Debug)]
pub struct CacheConfig {
    pub mode: CacheMode,
    pub root: PathBuf,
    pub ttl_seconds: u64,
}

/// The HTTP cache: its configuration and the scope of the credentials its entries belong to.
#[derive(Clone, Debug)]
pub struct CacheStore {
    config: CacheConfig,
    auth_scope: String,
}

/// A cached response: its validators, when it was fetched and its JSON body.
#[derive(Clone, Debug)]
pub struct CachedResponse {
    pub etag: Option<String>,
    pub last_modified: Option<String>,
    pub fetched_at: u64,
    pub body: serde_json::Value,
}

/// The scope that cache keys carry for a token: `token-` and the trimmed token, or
/// `anonymous` when there is no token or it is blank.
pub open spec fn auth_scope_text(token: Option<Seq<char>>) -> Seq<char> {
    match token {
        Some(t) => if trim_spec(t).len() > 0 {
            "token-"@ + trim_spec(t)
        } else {
            "anonymous"@
        },
        None => "anonymous"@,
    }
}

/// The scope that cache keys carry for a token.
pub fn auth_scope(token: Option<&str>) -> (r: String)
    ensures
        r@ == auth_scope_text(
            match token {
                Some(t) => Some(t@),
                None => None,
            },
        ),
{
    match token {
        Some(t) => {
            let trimmed = trim(t);
            if trimmed.unicode_len() > 0 {
                concat2("token-", trimmed.as_str())
            } else {
                String::from_str("anonymous")
            }
        },
        None => String::from_str("anonymous"),
    }
}

/// The SHA-256 digest of `bytes`.
pub uninterp spec fn sha256_digest(bytes: Seq<u8>) -> Seq<u8>;

/// Calls `sha2::Sha256::digest`. The contract names the digest `sha256_digest` of the
/// input; SHA-256 digests are 32 bytes long.
#[verifier::external_body]
fn sha256(bytes: &[u8]) -> (r: Vec<u8>)
    ensures
        r@ == sha256_digest(bytes@),
        r@.len() == 32,
{
    sha2::Sha256::digest(bytes).to_vec()
}

/// The lower-case hexadecimal digit of `d < 16`.
pub open spec fn hex_digit(d: nat) -> char {
    if d < 10 {
        (d + 48) as char
    } else {
        (d + 87) as char
    }
}

/// Two lower-case hexadecimal digits per byte, the high one first.
pub open spec fn hex_lower(bytes: Seq<u8>) -> Seq<char>
    decreases bytes.len(),
{
    if bytes.len() == 0 {
        Seq::empty()
    } else {
        hex_lower(bytes.drop_last()) + seq![
            hex_digit((bytes.last() / 16) as nat),
            hex_digit((bytes.last() % 16) as nat),
        ]
    }
}

/// Each byte gives two hexadecimal digits, and every digit is `0`-`9` or `a`-`f`.
pub proof fn lemma_hex_lower_shape(bytes: Seq<u8>)
    ensures
        hex_lower(bytes).len() == 2 * bytes.len(),
        forall|i: int|
            0 <= i < hex_lower(bytes).len() ==> {
                let c = #[trigger] hex_lower(bytes)[i];
                ('0' <= c <= '9') || ('a' <= c <= 'f')
            },
    decreases bytes.len(),
{
    if bytes.len() > 0 {
        lemma_hex_lower_shape(bytes.drop_last());
        let prev = hex_lower(bytes.drop_last());
        let hi = (bytes.last() / 16) as nat;
        let lo = (bytes.last() % 16) as nat;
        assert(hex_lower(bytes) == prev + seq![hex_digit(hi), hex_digit(lo)]);
        assert forall|i: int| 0 <= i < hex_lower(bytes).len() implies {
            let c = #[trigger] hex_lower(bytes)[i];
            ('0' <= c <= '9') || ('a' <= c <= 'f')
        } by {
            if i >= prev.len() {
                assert(hi < 16 && lo < 16);
            } else {
                assert(hex_lower(bytes)[i] == prev[i]);
            }
        }
    }
}

fn hex_digit_char(d: u8) -> (c: char)
    requires
        d < 16,
    ensures
        c == hex_digit(d as nat),
{
    if d < 10 {
        (d + 48) as char
    } else {
        (d + 87) as char
    }
}

/// Formats bytes as lower-case hexadecimal, as `{:x}` does for a digest.
pub fn hex_encode(bytes: &[u8]) -> (r: String)
    ensures
        r@ == hex_lower(bytes@),
{
    let mut r = String::new();
    let mut i: usize = 0;
    while i < bytes.len()
        invariant
            i <= bytes@.len(),
            r@ == hex_lower(bytes@.take(i as int)),
        decreases bytes@.len() - i,
    {
        let b = bytes[i];
        let ghost before = r@;
        push_char(&mut r, hex_digit_char(b / 16));
        push_char(&mut r, hex_digit_char(b % 16));
        proof {
            assert(bytes@.take(i + 1).drop_last() =~= bytes@.take(i as int));
            assert(r@ =~= hex_lower(bytes@.take(i as int)) + seq![
                hex_digit((b / 16) as nat),
                hex_digit((b % 16) as nat),
            ]);
        }
        i = i + 1;
    }
    assert(bytes@.take(bytes@.len() as int) =~= bytes@);
    r
}

/// The lower-case hexadecimal SHA-256 digest of `value`.
pub fn sha256_hex(value: &[u8]) -> (r: String)
    ensures
        r@ == hex_lower(sha256_digest(value@)),
        r@.len() == 64,
        forall|i: int| 0 <= i < r@.len() ==> ('0' <= #[trigger] r@[i] <= '9') || ('a' <= r@[i] <= 'f'),
{
    let digest = sha256(value);
    let r = hex_encode(digest.as_slice());
    proof {
        lemma_hex_lower_shape(digest@);
    }
    r
}

/// The cache key of a request: the hexadecimal SHA-256 digest of the UTF-8 bytes of the
/// method, URL, discriminator and credential scope, one after the other.
pub open spec fn cache_key(method: Seq<char>, url: Seq<char>, discriminator: Seq<char>, scope: Seq<char>) -> Seq<char> {
    hex_lower(sha256_digest(vstd::utf8::encode_utf8(method + url + discriminator + scope)))
}

impl CacheStore {
    /// The scope of the credentials that this cache's keys carry.
    pub closed spec fn scope(&self) -> Seq<char> {
        self.auth_scope@
    }

    /// The configuration of this cache.
    pub closed spec fn configuration(&self) -> CacheConfig {
        self.config
    }

    pub fn new(config: CacheConfig, token: Option<&str>) -> (r: Self)
        ensures
            r.configuration() == config,
            r.scope() == auth_scope_text(
                match token {
                    Some(t) => Some(t@),
                    None => None,
                },
            ),
    {
        CacheStore { config, auth_scope: auth_scope(token) }
    }

    pub fn mode(&self) -> (r: CacheMode)
        ensures
            r == self.configuration().mode,
    {
        self.config.mode
    }

    /// The configuration of this cache.
    pub fn config(&self) -> (r: &CacheConfig)
        ensures
            *r == self.configuration(),
    {
        &self.config
    }

    /// The key under which the response to a request is cached.
    pub fn key(&self, method: &str, url: &str, discriminator: &str) -> (r: String)
        ensures
            r@ == cache_key(method@, url@, discriminator@, self.scope()),
            r@.len() == 64,
            forall|i: int| 0 <= i < r@.len() ==> ('0' <= #[trigger] r@[i] <= '9') || ('a' <= r@[i] <= 'f'),
    {
        let mut raw = String::from_str(method);
        raw.append(url);
        raw.append(discriminator);
        raw.append(self.auth_scope.as_str());
        assert(raw@ == method@ + url@ + discriminator@ + self.auth_scope@);
        sha256_hex(raw.as_str().as_bytes())
    }

    /// Whether cached entries are read: in every mode but `Bypass`.
    pub fn reads_entries(&self) -> (r: bool)
        ensures
            r == (self.configuration().mode != CacheMode::Bypass),
    {
        !matches!(self.config.mode, CacheMode::Bypass)
    }

    /// Whether new entries are stored: in `Auto` and `Refresh` mode.
    pub fn writes_entries(&self) -> (r: bool)
        ensures
            r == (self.configuration().mode != CacheMode::Bypass && self.configuration().mode
                != CacheMode::Offline),
    {
        !matches!(self.config.mode, CacheMode::Bypass | CacheMode::Offline)
    }
}

/// The machine's clock.
#[verifier::external_type_specification]
#[verifier::external_body]
pub struct ExSystemTime(std::time::SystemTime);

/// Calls `std::time::SystemTime::now`. The clock's reading is not stated.
#[verifier::external_body]
fn system_now() -> std::time::SystemTime {
    std::time::SystemTime::now()
}

/// Calls `SystemTime::duration_since` with `UNIX_EPOCH`: `None` where the time lies
/// before the epoch. The duration itself is not stated.
#[verifier::external_body]
fn since_epoch(t: &std::time::SystemTime) -> Option<std::time::Duration> {
    t.duration_since(std::time::UNIX_EPOCH).ok()
}

/// Calls `Duration::as_secs`: the whole seconds of a duration, which this library does
/// not state of the opaque duration.
#[verifier::external_body]
fn whole_seconds(d: &std::time::Duration) -> u64 {
    d.as_secs()
}

/// The current time in whole seconds since the Unix epoch; 0 where the clock reads a time
/// before the epoch. The contract states nothing of the number: it is the machine clock's
/// reading, which `system_now`, `since_epoch` and `whole_seconds` leave unstated.
pub fn now_unix_seconds() -> u64 {
    match since_epoch(&system_now()) {
        Some(d) => whole_seconds(&d),
        None => 0,
    }
}

impl CachedResponse {
    /// A response to cache, stamped with the current time.
    pub fn new(etag: Option<String>, last_modified: Option<String>, body: serde_json::Value) -> (r: Self)
        ensures
            r.etag == etag,
            r.last_modified == last_modified,
            r.body == body,
    {
        CachedResponse { etag, last_modified, fetched_at: now_unix_seconds(), body }
    }
}

} // verus!
