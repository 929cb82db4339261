use lychee_lib::error::ErrorKind;
use lychee_lib::input::{directory_url, file_url, read_path_url, Base, ResolvedInputSource};
use lychee_lib::url_model::Url;

#[test]
fn base_from_text() {
    match Base::try_from("https://example.com/path/").unwrap() {
        Base::Remote(u) => assert_eq!(u.as_str(), "https://example.com/path/"),
        Base::Local(_) => panic!("a URL is a remote base"),
    }
    match Base::try_from("/some/dir").unwrap() {
        Base::Local(p) => assert_eq!(p, "/some/dir"),
        Base::Remote(_) => panic!("a path is a local base"),
    }
    assert_eq!(
        Base::try_from("data:text/plain,Hello").unwrap_err(),
        ErrorKind::InvalidBase(
            "data:text/plain,Hello".to_string(),
            "The given URL cannot be used as a base URL".to_string()
        )
    );
}

#[test]
fn base_to_url() {
    let remote = Base::Remote(Url::parse("https://example.com/path/").unwrap());
    assert_eq!(remote.to_url().unwrap().as_str(), "https://example.com/path/");
    let local = Base::Local("/some/dir".to_string());
    assert_eq!(local.to_url().unwrap().as_str(), "file:///some/dir/");
    let local = Base::Local("/some/dir/".to_string());
    assert_eq!(local.to_url().unwrap().as_str(), "file:///some/dir/");
    let local = Base::Local("some/dir".to_string());
    assert_eq!(
        local.to_url().unwrap_err(),
        ErrorKind::InvalidBase("some/dir".to_string(), "The path is not absolute".to_string())
    );
    let opaque = Base::Remote(Url::parse("mailto:a@b.c").unwrap());
    assert_eq!(
        opaque.to_url().unwrap_err(),
        ErrorKind::InvalidBase(
            "mailto:a@b.c".to_string(),
            "The given URL cannot be used as a base URL".to_string()
        )
    );
    assert_eq!(local.clone(), local);
}

#[test]
fn source_to_url() {
    let page = ResolvedInputSource::RemoteUrl(Url::parse("https://a.com/p").unwrap());
    assert_eq!(page.to_url().unwrap().unwrap().as_str(), "https://a.com/p");
    let file = ResolvedInputSource::FsPath("/some/with space.html".to_string());
    assert_eq!(file.to_url().unwrap().unwrap().as_str(), "file:///some/with%20space.html");
    assert!(ResolvedInputSource::Stdin.to_url().unwrap().is_none());
    assert!(ResolvedInputSource::Text("x".to_string()).to_url().unwrap().is_none());
    let file = ResolvedInputSource::FsPath("page.html".to_string());
    assert_eq!(
        file.to_url().unwrap_err(),
        ErrorKind::InvalidBase("page.html".to_string(), "The path is not absolute".to_string())
    );
}

#[test]
fn path_urls() {
    assert_eq!(file_url("/a/b").unwrap().as_str(), "file:///a/b");
    assert_eq!(directory_url("/a/b").unwrap().as_str(), "file:///a/b/");
    assert_eq!(directory_url("/").unwrap().as_str(), "file:///");
    assert!(file_url("").is_err());
}

#[test]
fn only_file_urls_are_read_back() {
    assert_eq!(
        read_path_url("/a", Ok("file:///a".to_string())).unwrap().as_str(),
        "file:///a"
    );
    assert_eq!(
        read_path_url("/a", Ok("https://a.com/".to_string())).unwrap_err(),
        ErrorKind::InvalidBase("/a".to_string(), "The URL of the path cannot be parsed".to_string())
    );
    assert_eq!(
        read_path_url("/a", Ok("no url".to_string())).unwrap_err(),
        ErrorKind::InvalidBase("/a".to_string(), "The URL of the path cannot be parsed".to_string())
    );
    assert_eq!(
        read_path_url("a", Err(())).unwrap_err(),
        ErrorKind::InvalidBase("a".to_string(), "The path is not absolute".to_string())
    );
}
