use ghdump::cli::{Cli, ResolveError, ResolvedTarget, ResourceKind};

fn cli(target: &str) -> Cli {
    Cli {
        target: target.to_owned(),
        output: None,
        template: None,
        dump_context: None,
        api_base_url: "https://api.github.com".to_owned(),
        graphql_url: "https://api.github.com/graphql".to_owned(),
        user_agent: "ghdump/test".to_owned(),
    }
}

#[test]
fn parses_issue_url() {
    let cli = cli("https://github.com/octocat/Hello-World/issues/42");

    let target = cli.resolve().expect("URL should parse");

    assert_eq!(target.owner, "octocat");
    assert_eq!(target.repo, "Hello-World");
    assert_eq!(target.number, 42);
    assert_eq!(target.kind, ResourceKind::Issue);
}

#[test]
fn parses_discussion_url() {
    let cli = cli("https://github.com/octocat/Hello-World/discussions/99");

    let target = cli.resolve().expect("discussion URL should parse");

    assert_eq!(target.owner, "octocat");
    assert_eq!(target.repo, "Hello-World");
    assert_eq!(target.number, 99);
    assert_eq!(target.kind, ResourceKind::Discussion);
}

#[test]
fn rejects_non_url_target() {
    let cli = cli("octocat/Hello-World");

    let error = cli.resolve().expect_err("non-URL target should fail");
    assert!(error.message().contains("TARGET must be a valid GitHub URL"));
}

#[test]
fn url_errors_carry_the_parser_reason() {
    let error = cli("octocat/Hello-World").resolve().expect_err("non-URL target should fail");
    assert_eq!(
        error,
        ResolveError::InvalidUrl("octocat/Hello-World".to_owned(), "relative URL without a base".to_owned())
    );
    assert_eq!(
        error.message(),
        "TARGET must be a valid GitHub URL, got octocat/Hello-World: relative URL without a base"
    );
}

#[test]
fn parses_pull_request_url_and_keeps_the_original() {
    let target = cli("https://github.com/rust-lang/rust/pull/7").resolve().expect("pull URL parses");
    assert_eq!(target.kind, ResourceKind::PullRequest);
    assert_eq!(target.number, 7);
    assert_eq!(target.original, "https://github.com/rust-lang/rust/pull/7");
}

#[test]
fn rejects_other_hosts() {
    let error = cli("https://gitlab.com/a/b/issues/1").resolve().expect_err("other host fails");
    assert_eq!(error, ResolveError::UnsupportedHost("gitlab.com".to_owned()));
    assert_eq!(error.message(), "unsupported host gitlab.com; expected github.com");
}

#[test]
fn rejects_short_paths() {
    let error = cli("https://github.com/a/b/issues").resolve().expect_err("short path fails");
    assert_eq!(error, ResolveError::PathTooShort);
    assert_eq!(error.message(), "URL path is too short to identify a GitHub resource");
}

#[test]
fn rejects_unknown_segments() {
    let error = cli("https://github.com/a/b/wiki/1").resolve().expect_err("wiki fails");
    assert_eq!(error, ResolveError::UnsupportedSegment("wiki".to_owned()));
    assert_eq!(error.message(), "unsupported GitHub URL segment wiki");
}

#[test]
fn rejects_non_numeric_numbers() {
    let error = cli("https://github.com/a/b/issues/abc").resolve().expect_err("letters fail");
    assert_eq!(
        error,
        ResolveError::InvalidNumber("abc".to_owned(), "invalid digit found in string".to_owned())
    );
    assert_eq!(error.message(), "invalid resource number abc: invalid digit found in string");
}

#[test]
fn number_errors_say_why() {
    let too_large = cli("https://github.com/a/b/issues/18446744073709551616").resolve().expect_err("too large");
    assert_eq!(
        too_large.message(),
        "invalid resource number 18446744073709551616: number too large to fit in target type"
    );
    let sign_only = cli("https://github.com/a/b/pull/+").resolve().expect_err("a lone sign fails");
    assert_eq!(sign_only.message(), "invalid resource number +: invalid digit found in string");
    let empty = cli("https://github.com/a/b/pull/").resolve().expect_err("an empty number fails");
    assert_eq!(empty.message(), "invalid resource number : cannot parse integer from empty string");
    let signed = cli("https://github.com/a/b/pull/+12").resolve().expect("a plus sign is accepted");
    assert_eq!(signed.number, 12);
}

#[test]
fn number_errors_agree_with_std() {
    for text in ["", "+", "-", "-1", "12a", "a12", "99999999999999999999", "99999999999999999999x", "1+"] {
        let expected = text.parse::<u64>().expect_err("refused").to_string();
        assert_eq!(ghdump::text::parse_u64_error(text), expected, "for {text:?}");
    }
}

#[test]
fn rejects_urls_without_a_host() {
    let error = cli("mailto:someone@example.com").resolve().expect_err("no host fails");
    assert_eq!(error, ResolveError::NoHost);
    assert_eq!(error.message(), "URL has no host");
}

#[test]
fn names_the_target() {
    let target = ResolvedTarget {
        owner: "octocat".to_owned(),
        repo: "Hello-World".to_owned(),
        number: 42,
        kind: ResourceKind::Issue,
        original: "https://github.com/octocat/Hello-World/issues/42".to_owned(),
    };
    assert_eq!(target.display_name(), "octocat/Hello-World/issue#42");
    assert_eq!(target.repo_locator(), "octocat/Hello-World");
    assert_eq!(ResourceKind::PullRequest.to_string(), "pull-request");
    assert_eq!(ResourceKind::Discussion.to_string(), "discussion");
    assert_eq!(ResourceKind::Issue.to_string(), "issue");
}
