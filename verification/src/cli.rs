use vstd::prelude::*;

use std::path::PathBuf;

use crate::text::{
    concat2, concat3, decimal_digits, parse_u64, parse_u64_error, parse_u64_error_text, parse_u64_spec,
    str_eq, u64_to_decimal,
};

verus! {

/// A filesystem path, carried as it is.
#[verifier::external_type_specification]
#[verifier::external_body]
pub struct ExPathBuf(PathBuf);

/// Gives `PathBuf::clone`, which the derived `Clone` of the cache configuration calls, a
/// place among the functions Verus knows; nothing is claimed of the copy.
pub assume_specification[ <PathBuf as Clone>::clone ](p: &PathBuf) -> PathBuf;

/// The command line: the URL to export and where to write what.
#[derive(Debug)]
pub struct Cli {
    pub target: String,
    pub output: Option<PathBuf>,
    pub template: Option<PathBuf>,
    pub dump_context: Option<PathBuf>,
    pub api_base_url: String,
    pub graphql_url: String,
    pub user_agent: String,
}

#[derive(Clone, Copy, Debug, PartialEq, Eq, Structural)]
pub enum ResourceKind {
    Issue,
    PullRequest,
    Discussion,
}

/// The name of a kind of resource: `issue`, `pull-request` or `discussion`.
pub open spec fn kind_text(kind: ResourceKind) -> Seq<char> {
    match kind {
        ResourceKind::Issue => seq!['i', 's', 's', 'u', 'e'],
        ResourceKind::PullRequest => seq!['p', 'u', 'l', 'l', '-', 'r', 'e', 'q', 'u', 'e', 's', 't'],
        ResourceKind::Discussion => seq!['d', 'i', 's', 'c', 'u', 's', 's', 'i', 'o', 'n'],
    }
}

impl ResourceKind {
    /// The name of the kind, as the templates and messages show it.
    pub fn to_string(&self) -> (r: String)
        ensures
            r@ == kind_text(*self),
    {
        let r = match self {
            ResourceKind::Issue => String::from_str("issue"),
            ResourceKind::PullRequest => String::from_str("pull-request"),
            ResourceKind::Discussion => String::from_str("discussion"),
        };
        proof {
            reveal_strlit("issue");
            reveal_strlit("pull-request");
            reveal_strlit("discussion");
        }
        assert(r@ =~= kind_text(*self));
        r
    }
}

/// The GitHub resource that a URL names.
#[derive(Clone, Debug, PartialEq, Eq)]
pub struct ResolvedTarget {
    pub owner: String,
    pub repo: String,
    pub number: u64,
    pub kind: ResourceKind,
    pub original: String,
}

impl ResolvedTarget {
    /// `owner/repo/kind#number`, as messages name the resource.
    pub fn display_name(&self) -> (r: String)
        ensures
            r@ == self.owner@ + seq!['/'] + self.repo@ + seq!['/'] + kind_text(self.kind) + seq!['#']
                + decimal_digits(self.number as nat),
    {
        let mut r = self.repo_locator();
        let mut slash = String::new();
        crate::text::push_char(&mut slash, '/');
        r.append(slash.as_str());
        let kind = self.kind.to_string();
        r.append(kind.as_str());
        let mut hash = String::new();
        crate::text::push_char(&mut hash, '#');
        r.append(hash.as_str());
        let number = u64_to_decimal(self.number);
        r.append(number.as_str());
        r
    }

    /// `owner/repo`.
    pub fn repo_locator(&self) -> (r: String)
        ensures
            r@ == self.owner@ + seq!['/'] + self.repo@,
    {
        let mut r = self.owner.clone();
        crate::text::push_char(&mut r, '/');
        r.append(self.repo.as_str());
        r
    }
}

/// What the library reads of a parsed URL: its serialization, its host and, for a URL
/// with a hierarchical path, the path's segments.
#[derive(Clone, Debug)]
pub struct UrlParts {
    pub serialized: String,
    pub host: Option<String>,
    pub segments: Option<Vec<String>>,
}

impl View for UrlParts {
    type V = (Seq<char>, Option<Seq<char>>, Option<Seq<Seq<char>>>);

    open spec fn view(&self) -> Self::V {
        (
            self.serialized@,
            match self.host {
                Some(h) => Some(h@),
                None => None,
            },
            match self.segments {
                Some(s) => Some(s@.map_values(|x: String| x@)),
                None => None,
            },
        )
    }
}

/// What `url::Url::parse` makes of `input`: where it refuses the text, the message of its
/// `ParseError`; else the URL's serialization (`Url::as_str`), host (`Url::host_str`) and
/// path segments (`Url::path_segments`).
pub uninterp spec fn parsed_url(input: Seq<char>) -> Result<(Seq<char>, Option<Seq<char>>, Option<Seq<Seq<char>>>), Seq<char>>;

/// Calls `url::Url::parse`, and reads the parsed URL by `Url::as_str`, `Url::host_str`
/// and `Url::path_segments`, or the refusal by the `Display` of its `ParseError`. WHATWG
/// URL parsing is not restated here: the contract names the outcome `parsed_url` of the
/// input text.
#[verifier::external_body]
pub(crate) fn parse_url(input: &str) -> (r: Result<UrlParts, String>)
    ensures
        match r {
            Ok(p) => parsed_url(input@) == Ok::<_, Seq<char>>(p@),
            Err(why) => parsed_url(input@) == Err::<(Seq<char>, Option<Seq<char>>, Option<Seq<Seq<char>>>), _>(why@),
        },
{
    match url::Url::parse(input) {
        Ok(url) => Ok(UrlParts {
            serialized: url.as_str().to_owned(),
            host: url.host_str().map(str::to_owned),
            segments: url.path_segments().map(|parts| parts.map(str::to_owned).collect()),
        }),
        Err(error) => Err(error.to_string()),
    }
}

/// Why a target could not be resolved to a GitHub resource.
#[derive(Clone, Debug, PartialEq, Eq)]
pub enum ResolveError {
    /// The target is not a URL: the target, and why the URL parser refused it.
    InvalidUrl(String, String),
    /// The URL has no host.
    NoHost,
    /// The URL's host is not `github.com`.
    UnsupportedHost(String),
    /// The URL's path is not hierarchical.
    NotHierarchical,
    /// The path has fewer than four segments.
    PathTooShort,
    /// The third segment is not `issues`, `pull` or `discussions`.
    UnsupportedSegment(String),
    /// The fourth segment is not a number: the segment, and why it is none.
    InvalidNumber(String, String),
}

/// The kind of resource that a URL's third path segment names.
pub open spec fn segment_kind(segment: Seq<char>) -> Option<ResourceKind> {
    if segment == "issues"@ {
        Some(ResourceKind::Issue)
    } else if segment == "pull"@ {
        Some(ResourceKind::PullRequest)
    } else if segment == "discussions"@ {
        Some(ResourceKind::Discussion)
    } else {
        None
    }
}

/// `r` is what resolving the parsed URL `u` gives: an error for a host other than
/// `github.com`, a path of fewer than four segments, an unknown third segment or a
/// fourth segment that is not a number; else the owner, repository, kind and number
/// that the first four segments name, with the URL's serialization.
pub open spec fn resolves_to(
    u: (Seq<char>, Option<Seq<char>>, Option<Seq<Seq<char>>>),
    r: Result<ResolvedTarget, ResolveError>,
) -> bool {
    match u.1 {
        None => r == Err::<ResolvedTarget, ResolveError>(ResolveError::NoHost),
        Some(host) => if host != "github.com"@ {
            r matches Err(ResolveError::UnsupportedHost(h)) && h@ == host
        } else {
            match u.2 {
                None => r == Err::<ResolvedTarget, ResolveError>(ResolveError::NotHierarchical),
                Some(segs) => if segs.len() < 4 {
                    r == Err::<ResolvedTarget, ResolveError>(ResolveError::PathTooShort)
                } else {
                    match segment_kind(segs[2]) {
                        None => r matches Err(ResolveError::UnsupportedSegment(s)) && s@ == segs[2],
                        Some(kind) => match parse_u64_spec(segs[3]) {
                            None => r matches Err(ResolveError::InvalidNumber(s, why)) && s@
                                == segs[3] && why@ == parse_u64_error_text(segs[3]),
                            Some(number) => r matches Ok(t) && t.owner@ == segs[0] && t.repo@
                                == segs[1] && t.number == number && t.kind == kind && t.original@
                                == u.0,
                        },
                    }
                },
            }
        },
    }
}

/// Reads the GitHub resource that a parsed URL names.
pub fn resolve_github_url(url: &UrlParts) -> (r: Result<ResolvedTarget, ResolveError>)
    ensures
        resolves_to(url@, r),
{
    let host = match &url.host {
        Some(h) => h,
        None => {
            return Err(ResolveError::NoHost);
        },
    };
    if !str_eq(host.as_str(), "github.com") {
        return Err(ResolveError::UnsupportedHost(host.clone()));
    }
    let segments = match &url.segments {
        Some(s) => s,
        None => {
            return Err(ResolveError::NotHierarchical);
        },
    };
    if segments.len() < 4 {
        return Err(ResolveError::PathTooShort);
    }
    assert(url@.2 == Some(segments@.map_values(|x: String| x@)));
    let ghost segs = segments@.map_values(|x: String| x@);
    assert(segs[2] == segments@[2]@ && segs[3] == segments@[3]@);
    assert(segs[0] == segments@[0]@ && segs[1] == segments@[1]@);
    let kind = if str_eq(segments[2].as_str(), "issues") {
        ResourceKind::Issue
    } else if str_eq(segments[2].as_str(), "pull") {
        ResourceKind::PullRequest
    } else if str_eq(segments[2].as_str(), "discussions") {
        ResourceKind::Discussion
    } else {
        return Err(ResolveError::UnsupportedSegment(segments[2].clone()));
    };
    let number = match parse_u64(segments[3].as_str()) {
        Some(n) => n,
        None => {
            return Err(
                ResolveError::InvalidNumber(segments[3].clone(), parse_u64_error(segments[3].as_str())),
            );
        },
    };
    Ok(ResolvedTarget {
        owner: segments[0].clone(),
        repo: segments[1].clone(),
        number,
        kind,
        original: url.serialized.clone(),
    })
}

impl Cli {
    /// Resolves the target URL to the GitHub resource it names; a target that is not a URL
    /// is refused.
    pub fn resolve(&self) -> (r: Result<ResolvedTarget, ResolveError>)
        ensures
            match parsed_url(self.target@) {
                Err(why) => r matches Err(ResolveError::InvalidUrl(t, w)) && t@ == self.target@
                    && w@ == why,
                Ok(u) => resolves_to(u, r),
            },
    {
        match parse_url(self.target.as_str()) {
            Ok(parts) => resolve_github_url(&parts),
            Err(why) => Err(ResolveError::InvalidUrl(self.target.clone(), why)),
        }
    }
}

impl ResolveError {
    /// The message that describes the error.
    pub fn message(&self) -> (r: String)
        ensures
            match self {
                ResolveError::InvalidUrl(t, why) => r@ == "TARGET must be a valid GitHub URL, got "@
                    + t@ + ": "@ + why@,
                ResolveError::NoHost => r@ == "URL has no host"@,
                ResolveError::UnsupportedHost(h) => r@ == "unsupported host "@ + h@
                    + "; expected github.com"@,
                ResolveError::NotHierarchical => r@ == "URL path is not hierarchical"@,
                ResolveError::PathTooShort => r@
                    == "URL path is too short to identify a GitHub resource"@,
                ResolveError::UnsupportedSegment(s) => r@ == "unsupported GitHub URL segment "@
                    + s@,
                ResolveError::InvalidNumber(s, why) => r@ == "invalid resource number "@ + s@
                    + ": "@ + why@,
            },
    {
        match self {
            ResolveError::InvalidUrl(t, why) => {
                let mut r = concat3("TARGET must be a valid GitHub URL, got ", t.as_str(), ": ");
                r.append(why.as_str());
                r
            },
            ResolveError::NoHost => String::from_str("URL has no host"),
            ResolveError::UnsupportedHost(h) => crate::text::concat3(
                "unsupported host ",
                h.as_str(),
                "; expected github.com",
            ),
            ResolveError::NotHierarchical => String::from_str("URL path is not hierarchical"),
            ResolveError::PathTooShort => String::from_str(
                "URL path is too short to identify a GitHub resource",
            ),
            ResolveError::UnsupportedSegment(s) => concat2("unsupported GitHub URL segment ", s.as_str()),
            ResolveError::InvalidNumber(s, why) => {
                let mut r = concat3("invalid resource number ", s.as_str(), ": ");
                r.append(why.as_str());
                r
            },
        }
    }
}

} // verus!
