use lychee_lib::error::ErrorKind;
use lychee_lib::url_mapping::UrlMappings;
use lychee_lib::url_model::Url;

fn url(text: &str) -> Url {
    Url::parse(text).unwrap()
}

fn mappings(pairs: &[(&str, &str)]) -> Result<UrlMappings, ErrorKind> {
    UrlMappings::new(pairs.iter().map(|(a, b)| (url(a), url(b))).collect())
}

fn to_new(m: &UrlMappings, u: &str) -> Option<(String, String)> {
    m.map_to_new_url(&url(u)).map(|(target, subpath)| (target.as_str().to_string(), subpath))
}

fn to_old(m: &UrlMappings, u: &str) -> Option<(String, String)> {
    m.map_to_old_url(&url(u)).map(|(target, subpath)| (target.as_str().to_string(), subpath))
}

fn pair(a: &str, b: &str) -> Option<(String, String)> {
    Some((a.to_string(), b.to_string()))
}

#[test]
fn nested_pair_is_refused() {
    let err = mappings(&[("https://a.com/x", "https://a.com/x/y")]).unwrap_err();
    assert_eq!(
        err,
        ErrorKind::InvalidBase(
            "https://a.com/x".to_string(),
            "base cannot be parent or child of root-dir https://a.com/x/y".to_string()
        )
    );
    let err = mappings(&[("https://a.com/x/y/", "https://a.com/x/")]).unwrap_err();
    assert_eq!(
        err,
        ErrorKind::InvalidBase(
            "https://a.com/x/y/".to_string(),
            "base cannot be parent or child of root-dir https://a.com/x/".to_string()
        )
    );
}

#[test]
fn equal_sides_are_accepted() {
    let m = mappings(&[("file:///root/", "file:///root/")]).unwrap();
    assert_eq!(m.len(), 1);
    assert_eq!(to_new(&m, "file:///root/a/b"), pair("file:///root/", "a/b"));
    assert_eq!(to_old(&m, "file:///root/a/b"), pair("file:///root/", "a/b"));
}

#[test]
fn unrelated_sides_are_accepted() {
    assert_eq!(mappings(&[]).unwrap().len(), 0);
    assert_eq!(UrlMappings::empty().len(), 0);
    assert!(mappings(&[("https://a.com/", "file:///root/")]).is_ok());
    assert!(mappings(&[("https://a.com/docs/", "https://a.com/api/")]).is_ok());
    assert!(mappings(&[("https://a.com/x/", "https://b.com/x/y/")]).is_ok());
    assert!(mappings(&[
        ("https://a.com/docs/", "file:///docs/"),
        ("https://a.com/api/", "file:///api/"),
    ])
    .is_ok());
}

#[test]
fn same_sides_of_two_pairs_must_not_nest() {
    let err = mappings(&[
        ("https://a.com/docs/", "file:///docs/"),
        ("https://b.com/", "file:///docs/sub/"),
    ])
    .unwrap_err();
    assert_eq!(
        err,
        ErrorKind::InvalidBase(
            "https://a.com/docs/".to_string(),
            "base cannot be parent or child of root-dir file:///docs/".to_string()
        )
    );
    let err = mappings(&[
        ("https://c.com/", "file:///c/"),
        ("https://a.com/docs/", "file:///docs/"),
        ("https://a.com/docs/v2/", "file:///v2/"),
    ])
    .unwrap_err();
    assert_eq!(
        err,
        ErrorKind::InvalidBase(
            "https://a.com/docs/".to_string(),
            "base cannot be parent or child of root-dir file:///docs/".to_string()
        )
    );
    assert!(mappings(&[
        ("https://a.com/docs/", "file:///docs/"),
        ("https://a.com/docs/", "file:///other/"),
    ])
    .is_ok());
}

#[test]
fn map_to_new_url_matches_the_local_side() {
    let m = mappings(&[("https://a.com/", "file:///root/")]).unwrap();
    let (remote, subpath) = m.map_to_new_url(&url("file:///root/sub/page.html")).unwrap();
    assert_eq!(remote.as_str(), "https://a.com/");
    assert_eq!(subpath, "sub/page.html");
    assert_eq!(remote.join(&subpath).unwrap().as_str(), "https://a.com/sub/page.html");
    assert_eq!(to_new(&m, "file:///elsewhere/page.html"), None);
    assert_eq!(to_new(&m, "https://a.com/sub/page.html"), None);
    assert_eq!(to_new(&m, "file:///root/"), pair("https://a.com/", ""));
    assert_eq!(to_new(&m, "file:///root/x?q=1#f"), pair("https://a.com/", "x?q=1#f"));
}

#[test]
fn map_to_old_url_matches_the_remote_side() {
    let m = mappings(&[("https://a.com/", "file:///root/")]).unwrap();
    let (local, subpath) = m.map_to_old_url(&url("https://a.com/sub/page.html")).unwrap();
    assert_eq!(local.as_str(), "file:///root/");
    assert_eq!(subpath, "sub/page.html");
    assert_eq!(local.join(&subpath).unwrap().as_str(), "file:///root/sub/page.html");
    assert_eq!(to_old(&m, "file:///root/sub/page.html"), None);
    assert_eq!(to_old(&m, "https://b.com/sub/page.html"), None);
}

#[test]
fn mapping_goes_there_and_back() {
    let m = mappings(&[("https://a.com/docs/", "file:///root/")]).unwrap();
    for u in ["file:///root/", "file:///root/a", "file:///root/a/b/?x=1", "file:///root/a%20b#c"] {
        let (remote, subpath) = m.map_to_new_url(&url(u)).unwrap();
        let there = remote.join(&subpath).unwrap();
        assert!(there.as_str().starts_with("https://a.com/docs/"));
        let (local, back) = m.map_to_old_url(&there).unwrap();
        assert_eq!(back, subpath);
        assert_eq!(local.join(&back).unwrap().as_str(), u);
    }
}

#[test]
fn first_pair_wins() {
    let m = mappings(&[
        ("https://first.com/", "file:///root/"),
        ("https://second.com/", "file:///root/"),
        ("https://third.com/", "file:///other/"),
    ])
    .unwrap();
    assert_eq!(to_new(&m, "file:///root/x"), pair("https://first.com/", "x"));
    assert_eq!(to_new(&m, "file:///other/x"), pair("https://third.com/", "x"));
    assert_eq!(to_old(&m, "https://second.com/x"), pair("file:///root/", "x"));
    let copy = m.clone();
    assert_eq!(copy.len(), 3);
    assert_eq!(to_new(&copy, "file:///root/x"), pair("https://first.com/", "x"));
}
