use lychee_lib::text::{
    is_root_relative_link, is_scheme_relative_link, remove_get_params_and_separate_fragment,
};

#[test]
fn test_remove_get_params_and_fragment() {
    assert_eq!(remove_get_params_and_separate_fragment("/"), ("/", None));
    assert_eq!(
        remove_get_params_and_separate_fragment("index.html?foo=bar"),
        ("index.html", None)
    );
    assert_eq!(
        remove_get_params_and_separate_fragment("/index.html?foo=bar"),
        ("/index.html", None)
    );
    assert_eq!(
        remove_get_params_and_separate_fragment("/index.html?foo=bar&baz=zorx?bla=blub"),
        ("/index.html", None)
    );
    assert_eq!(
        remove_get_params_and_separate_fragment("https://example.com/index.html?foo=bar"),
        ("https://example.com/index.html", None)
    );
    assert_eq!(
        remove_get_params_and_separate_fragment("test.png?foo=bar"),
        ("test.png", None)
    );

    assert_eq!(
        remove_get_params_and_separate_fragment("https://example.com/index.html#anchor"),
        ("https://example.com/index.html", Some("anchor"))
    );
    assert_eq!(
        remove_get_params_and_separate_fragment(
            "https://example.com/index.html?foo=bar#anchor"
        ),
        ("https://example.com/index.html", Some("anchor"))
    );
    assert_eq!(
        remove_get_params_and_separate_fragment("test.png?foo=bar#anchor"),
        ("test.png", Some("anchor"))
    );
    assert_eq!(
        remove_get_params_and_separate_fragment("test.png#anchor?anchor!?"),
        ("test.png", Some("anchor?anchor!?"))
    );
    assert_eq!(
        remove_get_params_and_separate_fragment("test.png?foo=bar#anchor?anchor!"),
        ("test.png", Some("anchor?anchor!"))
    );
}

#[test]
fn fragment_keeps_multibyte_text() {
    assert_eq!(
        remove_get_params_and_separate_fragment("päge.html?x=ü#ört"),
        ("päge.html", Some("ört"))
    );
    assert_eq!(remove_get_params_and_separate_fragment(""), ("", None));
    assert_eq!(remove_get_params_and_separate_fragment("#"), ("", Some("")));
    assert_eq!(remove_get_params_and_separate_fragment("a#b#c"), ("a", Some("b#c")));
}

#[test]
fn root_relative_has_one_leading_slash() {
    assert!(is_root_relative_link("/this"));
    assert!(is_root_relative_link("/"));
    assert!(is_root_relative_link(" \t\n/this"));
    assert!(!is_root_relative_link("//host/this"));
    assert!(!is_root_relative_link("this"));
    assert!(!is_root_relative_link("./this"));
    assert!(!is_root_relative_link(""));
    assert!(!is_root_relative_link("   "));
    assert!(!is_root_relative_link("\u{a0}/this"));
}

#[test]
fn scheme_relative_has_two_leading_slashes() {
    assert!(is_scheme_relative_link("//host/this"));
    assert!(is_scheme_relative_link("//"));
    assert!(is_scheme_relative_link("\r\n //host"));
    assert!(is_scheme_relative_link("///"));
    assert!(!is_scheme_relative_link("/this"));
    assert!(!is_scheme_relative_link("/ /"));
    assert!(!is_scheme_relative_link(""));
}
