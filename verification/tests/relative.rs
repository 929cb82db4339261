use lychee_lib::error::ErrorKind;
use lychee_lib::relative::{parse_url_or_relative, RelativeUri, UriOrRelative};

fn relative(text: &str) -> RelativeUri<'_> {
    match parse_url_or_relative(text).unwrap() {
        UriOrRelative::Relative(r) => r,
        UriOrRelative::Absolute(uri) => panic!("{} is a URL", uri.url.as_str()),
    }
}

#[test]
fn link_text_of_each_kind() {
    assert_eq!(RelativeUri::RootRel("/a").link_text(), "/a");
    assert_eq!(RelativeUri::SchemeRel("//a").link_text(), "//a");
    assert_eq!(RelativeUri::LocalRel("a").link_text(), "a");
}

#[test]
fn classify_by_leading_slashes() {
    assert_eq!(RelativeUri::classify("/a"), RelativeUri::RootRel("/a"));
    assert_eq!(RelativeUri::classify("//a"), RelativeUri::SchemeRel("//a"));
    assert_eq!(RelativeUri::classify("a"), RelativeUri::LocalRel("a"));
    assert_eq!(RelativeUri::classify(""), RelativeUri::LocalRel(""));
    assert_eq!(RelativeUri::classify("#frag"), RelativeUri::LocalRel("#frag"));
    assert_eq!(RelativeUri::classify("?q"), RelativeUri::LocalRel("?q"));
    assert_eq!(RelativeUri::classify("../a"), RelativeUri::LocalRel("../a"));
    assert_eq!(RelativeUri::classify(" /a"), RelativeUri::RootRel(" /a"));
}

#[test]
fn url_or_relative() {
    match parse_url_or_relative("  https://a.com/x").unwrap() {
        UriOrRelative::Absolute(uri) => assert_eq!(uri.url.as_str(), "https://a.com/x"),
        UriOrRelative::Relative(_) => panic!("a URL is not relative"),
    }
    assert_eq!(relative("/x"), RelativeUri::RootRel("/x"));
    assert_eq!(relative(" \t/x"), RelativeUri::RootRel("/x"));
    assert_eq!(relative("//host/x"), RelativeUri::SchemeRel("//host/x"));
    assert_eq!(relative("x/y"), RelativeUri::LocalRel("x/y"));
    assert_eq!(relative(""), RelativeUri::LocalRel(""));
    assert_eq!(relative("#x"), RelativeUri::LocalRel("#x"));
    assert_eq!(
        parse_url_or_relative(" https://[bad").unwrap_err(),
        ErrorKind::ParseUrl(url::ParseError::InvalidIpv6Address, "https://[bad".to_string())
    );
}
