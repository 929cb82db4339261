use lychee_lib::error::ErrorKind;
use lychee_lib::url_model::Url;

fn url(text: &str) -> Url {
    Url::parse(text).unwrap()
}

fn rel(u: &str, prefix: &str) -> Option<String> {
    url(u).strictly_relative_to(&url(prefix))
}

fn rooted(base: &str, subpaths: &[&str]) -> String {
    url(base).join_rooted(subpaths).unwrap().as_str().to_string()
}

#[test]
fn test_strip_prefix() {
    // note trailing slashes for subpaths, otherwise everything becomes siblings
    let goog = Url::parse("https://goog.com").unwrap();
    let goog_subpath = goog.join("subpath/").unwrap();
    let goog_subsubpath = goog_subpath.join("sub2path/").unwrap();

    assert_eq!(goog.strip_prefix(&goog).as_deref(), Some(""));

    assert_eq!(
        goog_subpath.strip_prefix(&goog).as_deref(),
        Some("subpath/")
    );
    assert_eq!(goog.strip_prefix(&goog_subpath).as_deref(), None);

    assert_eq!(goog_subpath.strip_prefix(&goog_subsubpath).as_deref(), None);
}

#[test]
fn test_fdsa() {
    assert_eq!(
        url("https://a.com/b/x")
            .strip_prefix(&url("https://a.com/b/x"))
            .as_deref(),
        Some("")
    );
    assert_eq!(
        url("https://a.com/b/x")
            .strip_prefix(&url("https://a.com/b/aa"))
            .as_deref(),
        None
    );
    assert_eq!(
        url("https://a.com/b/x")
            .strip_prefix(&url("https://a.com/b/"))
            .as_deref(),
        Some("x")
    );
    assert_eq!(
        url("https://a.com/b/x")
            .strip_prefix(&url("https://a.com/b"))
            .as_deref(),
        Some("b/x")
    );
    assert_eq!(
        url("https://a.com/b/x")
            .strip_prefix(&url("https://a.com/a"))
            .as_deref(),
        None
    );
    assert_eq!(
        url("https://a.com/b/x")
            .strip_prefix(&url("https://a.com/a/"))
            .as_deref(),
        None
    );

    assert_eq!(
        url("https://a.com/b//x")
            .strip_prefix(&url("https://a.com/b/"))
            .as_deref(),
        Some("./x")
    );
    assert_eq!(
        url("https://a.com/b///x")
            .strip_prefix(&url("https://a.com/b/"))
            .as_deref(),
        Some(".//x")
    );
}

#[test]
fn relative_text_of_descendants() {
    assert_eq!(rel("https://goog.com", "https://goog.com").as_deref(), Some(""));
    assert_eq!(
        rel("https://goog.com/subpath/", "https://goog.com").as_deref(),
        Some("subpath/")
    );
    assert_eq!(rel("https://goog.com", "https://goog.com/subpath/"), None);
    assert_eq!(
        rel("https://goog.com/subpath/", "https://goog.com/subpath/sub2path/"),
        None
    );
    assert_eq!(rel("https://a.com/b/x", "https://a.com/b/x").as_deref(), Some(""));
    assert_eq!(rel("https://a.com/b/x", "https://a.com/b/").as_deref(), Some("x"));
    assert_eq!(rel("https://a.com/b/x", "https://a.com/b").as_deref(), Some("b/x"));
    assert_eq!(rel("https://a.com/b/x", "https://a.com/a/"), None);
    assert_eq!(rel("https://a.com/b/c/d", "https://a.com/b/").as_deref(), Some("c/d"));
}

#[test]
fn relative_text_leaves_out_the_last_segment_of_the_prefix() {
    assert_eq!(
        rel(
            "https://example.com/path/page.html#fragment",
            "https://example.com/path/page2.html"
        )
        .as_deref(),
        Some("page.html#fragment")
    );
    assert_eq!(rel("https://a.com/b/x", "https://a.com/b/aa").as_deref(), Some("x"));
    assert_eq!(rel("https://a.com/b/x", "https://a.com/a").as_deref(), Some("b/x"));
}

#[test]
fn relative_text_carries_query_and_fragment() {
    assert_eq!(
        rel("https://a.com/b/x?k=v#top", "https://a.com/b/").as_deref(),
        Some("x?k=v#top")
    );
    assert_eq!(
        rel("https://a.com/b/x?k=v", "https://a.com/b/x").as_deref(),
        Some("?k=v")
    );
    assert_eq!(
        rel("https://a.com/b/x#top", "https://a.com/b/x").as_deref(),
        Some("#top")
    );
}

#[test]
fn relative_text_needs_the_same_scheme_host_and_port() {
    assert_eq!(rel("http://a.com/b/x", "https://a.com/b/"), None);
    assert_eq!(rel("https://b.com/b/x", "https://a.com/b/"), None);
    assert_eq!(rel("https://a.com:8443/b/x", "https://a.com/b/"), None);
    assert_eq!(rel("https://a.com:443/b/x", "https://a.com/b/").as_deref(), Some("x"));
    assert_eq!(rel("mailto:a@b.c", "mailto:a@b.c"), None);
}

#[test]
fn relative_text_with_empty_segments() {
    let cases = [
        ("https://a.com/b//x", "https://a.com/b/"),
        ("https://a.com/b///x", "https://a.com/b/"),
        ("https://a.com/b/", "https://a.com/b/x"),
        ("https://a.com/", "https://a.com/x"),
        ("https://a.com//", "https://a.com/"),
    ];
    for (u, prefix) in cases {
        let text = rel(u, prefix);
        println!("{u} from {prefix}: {text:?}");
        if let Some(text) = text {
            assert!(!text.starts_with('/'));
            assert_eq!(url(prefix).join(&text).unwrap().as_str(), u);
        }
    }
    assert_eq!(rel("https://a.com/b//x", "https://a.com/b/").as_deref(), Some(".//x"));
    assert_eq!(rel("https://a.com/b/", "https://a.com/b/x").as_deref(), Some("./"));
}

#[test]
fn relative_text_joins_back() {
    let prefixes = [
        "https://a.com/",
        "https://a.com/b/",
        "https://a.com/b/page.html",
        "https://a.com/b/c/?q=1",
        "file:///root/",
        "file:///root/dir/file.md",
    ];
    let urls = [
        "https://a.com/",
        "https://a.com/b/",
        "https://a.com/b/page.html",
        "https://a.com/b/c/d%20e/f?x=y#z",
        "https://a.com/b/c:d/e",
        "https://a.com/b/c/",
        "file:///root/",
        "file:///root/dir/other.md#sec",
        "file:///root/C:/x",
        "file:///other",
    ];
    for prefix in prefixes {
        for u in urls {
            if let Some(text) = rel(u, prefix) {
                assert_eq!(url(prefix).join(&text).unwrap().as_str(), u);
                assert!(!text.starts_with("../"));
            }
        }
    }
}

#[test]
fn join_rooted_confines_file_bases() {
    assert_eq!(rooted("file:///a/b/", &["../.."]), "file:///a/b/");
    assert_eq!(rooted("file:///a/b/", &["/.."]), "file:///a/b/");
    assert_eq!(rooted("file:///a/b/", &[".."]), "file:///a/b/");
    assert_eq!(rooted("file:///a/b/", &["c/", "../../../d"]), "file:///a/b/d");
    assert_eq!(rooted("file:///a/b/", &["/c/d.html"]), "file:///a/b/c/d.html");
    assert_eq!(rooted("file:///a/b/", &["c/d.html?x=1#y"]), "file:///a/b/c/d.html?x=1#y");
    assert_eq!(rooted("file:///a/b/", &["%2e%2e/%2E%2E/x"]), "file:///a/b/x");
    assert_eq!(rooted("file:///a/b/", &[]), "file:///a/b/");
}

#[test]
fn join_rooted_keeps_the_authority_of_a_file_base() {
    for link in ["//other.example/x", "/C:/Windows", "C:/Windows", "//x", "\\\\host\\share"] {
        let joined = url("file:///a/b/").join_rooted(&[link]).unwrap();
        println!("{link}: {}", joined.as_str());
        assert_eq!(joined.scheme(), "file");
        assert_eq!(joined.host_str(), None);
        assert!(joined.as_str().starts_with("file:///a/b/"));
    }
}

#[test]
fn join_rooted_is_a_plain_join_elsewhere() {
    assert_eq!(rooted("https://a.com/b/", &["/../.."]), "https://a.com/");
    assert_eq!(rooted("https://a.com/b/", &["c/", "d"]), "https://a.com/b/c/d");
    assert_eq!(rooted("https://a.com/b/", &["//eve.com/x"]), "https://eve.com/x");
    assert_eq!(rooted("https://a.com/b/", &["../../../x"]), "https://a.com/x");
    assert_eq!(rooted("https://a.com/b/", &[]), "https://a.com/b/");
}

#[test]
fn join_rooted_reports_the_offending_subpath() {
    let err = url("https://a.com/b/").join_rooted(&["ok/", "https://[bad"]).unwrap_err();
    assert_eq!(
        err,
        ErrorKind::ParseUrl(url::ParseError::InvalidIpv6Address, "https://[bad".to_string())
    );
    let err = url("file:///a/b/").join_rooted(&["//[bad"]).unwrap_err();
    assert_eq!(
        err,
        ErrorKind::ParseUrl(url::ParseError::InvalidIpv6Address, "//[bad".to_string())
    );
    let err = url("mailto:a@b.c").join_rooted(&["x"]).unwrap_err();
    assert_eq!(
        err,
        ErrorKind::ParseUrl(url::ParseError::RelativeUrlWithCannotBeABaseBase, "x".to_string())
    );
}

#[test]
fn confine_keeps_what_lies_within() {
    let base = url("file:///a/b/");
    assert_eq!(base.confine(url("file:///a/b/c")).as_str(), "file:///a/b/c");
    assert_eq!(base.confine(url("file:///a/c")).as_str(), "file:///a/b/");
    assert_eq!(base.confine(url("file://host/a/b/c")).as_str(), "file:///a/b/");
    assert_eq!(base.confine(url("https://a.com/a/b/c")).as_str(), "file:///a/b/");
    let file = url("file:///a/b/page.html");
    assert_eq!(file.confine(url("file:///a/b/other.html")).as_str(), "file:///a/b/other.html");
    assert_eq!(file.confine(url("file:///a/b")).as_str(), "file:///a/b/page.html");
    assert!(url("file:///a/b/c/d").is_within(&base));
    assert!(!url("file:///a/b").is_within(&base));
}

#[test]
fn parse_reads_the_parts() {
    let u = url("HTTPS://User@Example.COM:8443/a/b%20c/?q=1#frag");
    assert_eq!(u.as_str(), "https://User@example.com:8443/a/b%20c/?q=1#frag");
    assert_eq!(u.scheme(), "https");
    assert_eq!(u.host_str(), Some("example.com"));
    assert_eq!(u.port(), Some(8443));
    assert_eq!(
        u.path_segments().unwrap(),
        &vec!["a".to_string(), "b%20c".to_string(), String::new()]
    );
    assert_eq!(u.query(), Some("q=1"));
    assert_eq!(u.fragment(), Some("frag"));
    assert!(!u.is_file());
    let m = url("mailto:a@b.c");
    assert!(m.path_segments().is_none());
    assert_eq!(m.host_str(), None);
    assert_eq!(Url::parse("/x").unwrap_err(), url::ParseError::RelativeUrlWithoutBase);
    assert!(url("file:///x").is_file());
}

#[test]
fn pop_if_empty_drops_one_trailing_slash() {
    assert_eq!(url("file:///a/b/").pop_if_empty().as_str(), "file:///a/b");
    assert_eq!(url("file:///a/b/?q#f").pop_if_empty().as_str(), "file:///a/b?q#f");
    assert_eq!(url("file:///a/b").pop_if_empty().as_str(), "file:///a/b");
    assert_eq!(url("file:///").pop_if_empty().as_str(), "file:///");
    assert_eq!(url("mailto:a@b.c").pop_if_empty().as_str(), "mailto:a@b.c");
}

#[test]
fn confinement_holds_for_many_subpaths() {
    let pieces = [
        "", ".", "..", "a", "a/", "/", "/a", "//", "//h/x", "../..", "%2e%2e", "%2E%2e/", "..%2f",
        "b c", "C:", "C:/x", "?q=1", "#f", "\\", "..\\..", "a/../../..", "./../.", "\t../x",
        "file:x", " ..",
    ];
    let bases = [
        "file:///",
        "file:///root/",
        "file:///root/dir/",
        "file:///root/dir/page.html",
        "file:///root/dir/page.html?q#f",
        "file://host/share/dir/",
    ];
    for base in bases {
        let base = url(base);
        let dirs = base.path_segments().unwrap();
        let dirs = &dirs[..dirs.len() - 1];
        for first in pieces {
            for second in pieces {
                for subpaths in [vec![first], vec![first, second]] {
                    let joined = match base.join_rooted(&subpaths) {
                        Ok(joined) => joined,
                        Err(ErrorKind::ParseUrl(_, text)) => {
                            assert!(subpaths.contains(&text.as_str()));
                            continue;
                        }
                        Err(other) => panic!("{other:?}"),
                    };
                    assert_eq!(joined.scheme(), "file");
                    assert_eq!(joined.host_str(), base.host_str());
                    let segments = joined.path_segments().unwrap();
                    assert!(segments.len() > dirs.len(), "{subpaths:?}: {}", joined.as_str());
                    assert_eq!(&segments[..dirs.len()], dirs, "{subpaths:?}");
                    assert!(joined.is_within(&base) || joined.as_str() == base.as_str());
                    assert!(!segments.iter().any(|s| s == ".." || s == "."));
                }
            }
        }
    }
}

#[test]
fn relative_text_never_leads_up() {
    let urls = [
        "https://a.com/",
        "https://a.com/..%2f",
        "https://a.com/b/",
        "https://a.com/b/c",
        "https://a.com/b/c/",
        "https://a.com/b//",
        "https://a.com/b/%2e%2e/c",
        "https://a.com/b/..c",
        "https://a.com/b/.../c",
        "https://a.com/b/c?d#e",
        "https://a.com/?d",
        "https://a.com/#e",
        "https://a.com:8080/b/c",
        "https://user:pw@a.com/b/c",
        "http://a.com/b/c",
        "foo://a.com/b/c",
        "foo:/b/c",
    ];
    for u in urls {
        for prefix in urls {
            let (u, prefix) = (url(u), url(prefix));
            match u.strictly_relative_to(&prefix) {
                Some(text) => {
                    assert!(u.is_within(&prefix));
                    assert!(text != ".." && !text.starts_with("../"), "{text}");
                    assert!(!text.starts_with("..?") && !text.starts_with("..#"), "{text}");
                    assert!(!text.starts_with('/'), "{text}");
                    assert_eq!(prefix.join(&text).unwrap().as_str(), u.as_str());
                }
                None => {}
            }
        }
    }
    assert_eq!(rel("https://a.com/b/..c", "https://a.com/b/").as_deref(), Some("..c"));
    assert_eq!(rel("https://a.com/..%2f", "https://a.com/").as_deref(), Some("..%2f"));
    assert_eq!(rel("https://a.com/b/.../c", "https://a.com/b/").as_deref(), Some(".../c"));
}

#[test]
fn strip_prefix_needs_the_same_scheme_host_and_port() {
    let u = url("https://a.com/b/x");
    assert_eq!(u.strip_prefix(&url("https://other.org/b/")), None);
    assert_eq!(u.strip_prefix(&url("http://a.com/b/")), None);
    assert_eq!(u.strip_prefix(&url("https://a.com:8443/b/")), None);
    assert_eq!(u.strip_prefix(&url("https://a.com:443/b/")).as_deref(), Some("x"));
    assert!(u.has_origin_of(&url("https://a.com/other?q")));
    assert!(!u.has_origin_of(&url("https://b.com/b/x")));
}

#[test]
fn strip_prefix_carries_query_and_fragment() {
    assert_eq!(
        url("https://a.com/b/x?q=1#f").strip_prefix(&url("https://a.com/b/")).as_deref(),
        Some("x?q=1#f")
    );
    assert_eq!(
        url("https://a.com/b/x#f").strip_prefix(&url("https://a.com/b")).as_deref(),
        Some("b/x#f")
    );
    assert_eq!(
        url("https://a.com/b/x?q=1").strip_prefix(&url("https://a.com/b/x")).as_deref(),
        Some("?q=1")
    );
    assert_eq!(
        url("https://a.com/b//x?q").strip_prefix(&url("https://a.com/b/")).as_deref(),
        Some("./x?q")
    );
    assert_eq!(url("https://a.com/b/x").strip_prefix(&url("https://a.com/b/x?q=1")), None);
}

#[test]
fn strip_prefix_joins_back() {
    let urls = [
        "https://a.com/",
        "https://a.com/b",
        "https://a.com/b/",
        "https://a.com/b/c",
        "https://a.com/b/c/",
        "https://a.com/b/c/d?e#f",
        "https://a.com/b/..c",
        "https://a.com/b/c:d",
        "https://a.com/b/?e",
        "https://a.com/b/#f",
        "https://a.com:8080/b/c",
        "file:///b/c",
        "file:///b/c/d",
    ];
    let mut found = 0;
    for u in urls {
        for prefix in urls {
            let (u, prefix) = (url(u), url(prefix));
            if let Some(text) = u.strip_prefix(&prefix) {
                found += 1;
                assert!(!text.starts_with('/'), "{text}");
                assert!(text != ".." && !text.starts_with("../"), "{text}");
                assert_eq!(prefix.join(&text).unwrap(), u);
            }
        }
    }
    assert!(found > 20);
}

#[test]
fn relative_text_with_a_colon_in_its_first_segment() {
    assert_eq!(
        rel("https://a.com/b/c:d/e", "https://a.com/b/").as_deref(),
        Some("./c:d/e")
    );
    assert_eq!(
        rel("file:///https://a.com/x", "file:///").as_deref(),
        Some("./https://a.com/x")
    );
    assert_eq!(rel("https://a.com/b/c/d:e", "https://a.com/b/").as_deref(), Some("c/d:e"));
    assert_eq!(
        url("https://a.com/b/").join("./c:d/e").unwrap().as_str(),
        "https://a.com/b/c:d/e"
    );
}
