//! Plain-text helpers for link text: searching, splitting and classifying
//! strings by their characters.

use vstd::prelude::*;
use vstd::string::*;
use vstd::utf8::encode_utf8_decode_utf8;

verus! {

/// The five characters that count as ASCII whitespace at the start of link text.
pub open spec fn is_ascii_space(c: char) -> bool {
    c == ' ' || c == '\t' || c == '\n' || c == '\x0C' || c == '\r'
}

/// `k` is where `s` stops beginning with ASCII whitespace.
pub open spec fn is_trim_point(s: Seq<char>, k: int) -> bool {
    &&& 0 <= k <= s.len()
    &&& forall|j: int| 0 <= j < k ==> is_ascii_space(#[trigger] s[j])
    &&& k < s.len() ==> !is_ascii_space(s[k])
}

/// The number of ASCII whitespace characters that `s` begins with.
pub open spec fn trim_point(s: Seq<char>) -> int {
    choose|k: int| is_trim_point(s, k)
}

/// `s` without the ASCII whitespace it begins with.
pub open spec fn trim_ascii_start(s: Seq<char>) -> Seq<char> {
    s.skip(trim_point(s))
}

/// `s` begins with `p`.
pub open spec fn starts_with(s: Seq<char>, p: Seq<char>) -> bool {
    p.len() <= s.len() && s.subrange(0, p.len() as int) == p
}

/// Link text that names its own authority: `//host/path`, possibly after whitespace.
pub open spec fn scheme_relative(text: Seq<char>) -> bool {
    starts_with(trim_ascii_start(text), seq!['/', '/'])
}

/// Link text that starts at the root of the base: one leading `/`, possibly
/// after whitespace, and not two.
pub open spec fn root_relative(text: Seq<char>) -> bool {
    !scheme_relative(text) && starts_with(trim_ascii_start(text), seq!['/'])
}

/// `i` is the first place where `c` stands in `s`.
pub open spec fn is_first_at(s: Seq<char>, c: char, i: int) -> bool {
    &&& 0 <= i < s.len()
    &&& s[i] == c
    &&& forall|j: int| 0 <= j < i ==> #[trigger] s[j] != c
}

/// `s` cut in two at the first `c`, which is dropped; `None` when `s` holds no `c`.
pub open spec fn split_once(s: Seq<char>, c: char) -> Option<(Seq<char>, Seq<char>)> {
    if s.contains(c) {
        let i = choose|i: int| is_first_at(s, c, i);
        Some((s.subrange(0, i), s.subrange(i + 1, s.len() as int)))
    } else {
        None
    }
}

/// What comes before the first `#` of `link`.
pub open spec fn before_fragment(link: Seq<char>) -> Seq<char> {
    match split_once(link, '#') {
        Some((path, _)) => path,
        None => link,
    }
}

/// The path of `link`: what comes before its first `#`, cut at the first `?`.
pub open spec fn path_part(link: Seq<char>) -> Seq<char> {
    match split_once(before_fragment(link), '?') {
        Some((path, _)) => path,
        None => before_fragment(link),
    }
}

/// The fragment of `link`: what follows its first `#`.
pub open spec fn fragment_part(link: Seq<char>) -> Option<Seq<char>> {
    match split_once(link, '#') {
        Some((_, fragment)) => Some(fragment),
        None => None,
    }
}

/// Each sequence has exactly one trim point.
pub proof fn lemma_trim_point(s: Seq<char>, k: int)
    requires
        is_trim_point(s, k),
    ensures
        trim_point(s) == k,
{
}

/// The first occurrence of a character is unique.
pub proof fn lemma_first_at(s: Seq<char>, c: char, i: int)
    requires
        is_first_at(s, c, i),
    ensures
        s.contains(c),
        (choose|k: int| is_first_at(s, c, k)) == i,
        split_once(s, c) == Some((s.subrange(0, i), s.subrange(i + 1, s.len() as int))),
{
}

/// Whether two strings hold the same characters.
pub fn str_eq(a: &str, b: &str) -> (r: bool)
    ensures
        r == (a@ == b@),
{
    let x = a.as_bytes();
    let y = b.as_bytes();
    proof {
        // Strings with the same bytes hold the same characters.
        encode_utf8_decode_utf8(a@);
        encode_utf8_decode_utf8(b@);
    }
    if x.len() != y.len() {
        return false;
    }
    let mut i: usize = 0;
    while i < x.len()
        invariant
            i <= x@.len(),
            x@.len() == y@.len(),
            x@ == a.spec_bytes(),
            y@ == b.spec_bytes(),
            forall|j: int| 0 <= j < i ==> x@[j] == y@[j],
        decreases x.len() - i,
    {
        if x[i] != y[i] {
            return false;
        }
        i = i + 1;
    }
    assert(x@ =~= y@);
    true
}

/// The place of the first `needle` in `s`.
pub fn find_char(s: &str, needle: char) -> (r: Option<usize>)
    ensures
        match r {
            Some(i) => is_first_at(s@, needle, i as int),
            None => !s@.contains(needle),
        },
{
    broadcast use group_string_axioms;

    let n = s.unicode_len();
    let mut i: usize = 0;
    for c in it: s.chars()
        invariant
            n == s@.len(),
            i == it.index(),
            it.seq() == s@,
            forall|j: int| 0 <= j < i ==> #[trigger] s@[j] != needle,
    {
        if c == needle {
            return Some(i);
        }
        i = i + 1;
    }
    None
}

/// Cuts `s` at the first `c`, as `str::split_once` does for a character.
pub fn split_once_char<'a>(s: &'a str, c: char) -> (r: Option<(&'a str, &'a str)>)
    ensures
        match r {
            Some((head, tail)) => split_once(s@, c) == Some((head@, tail@)),
            None => split_once(s@, c) is None,
        },
{
    match find_char(s, c) {
        Some(i) => {
            proof {
                lemma_first_at(s@, c, i as int);
            }
            let n = s.unicode_len();
            Some((s.substring_char(0, i), s.substring_char(i + 1, n)))
        },
        None => None,
    }
}

/// Remove all GET parameters from a link and separate out the fragment.
/// The link is plain text, not a URL: it may have no base domain.
pub fn remove_get_params_and_separate_fragment(url: &str) -> (r: (&str, Option<&str>))
    ensures
        r.0@ == path_part(url@),
        match r.1 {
            Some(fragment) => fragment_part(url@) == Some(fragment@),
            None => fragment_part(url@) is None,
        },
{
    let (path, frag) = match split_once_char(url, '#') {
        Some((path, fragment)) => (path, Some(fragment)),
        None => (url, None),
    };
    let path = match split_once_char(path, '?') {
        Some((path_without_params, _params)) => path_without_params,
        None => path,
    };
    (path, frag)
}

/// The number of ASCII whitespace characters at the start of `s`.
pub fn leading_space_len(s: &str) -> (k: usize)
    ensures
        k as int == trim_point(s@),
        k <= s@.len(),
{
    broadcast use group_string_axioms;

    let n = s.unicode_len();
    let mut i: usize = 0;
    for c in it: s.chars()
        invariant
            n == s@.len(),
            i == it.index(),
            it.seq() == s@,
            forall|j: int| 0 <= j < i ==> is_ascii_space(#[trigger] s@[j]),
    {
        if !(c == ' ' || c == '\t' || c == '\n' || c == '\x0C' || c == '\r') {
            proof {
                lemma_trim_point(s@, i as int);
            }
            return i;
        }
        i = i + 1;
    }
    proof {
        lemma_trim_point(s@, i as int);
    }
    i
}

/// `s` without its leading ASCII whitespace.
pub fn trim_start(s: &str) -> (r: &str)
    ensures
        r@ == trim_ascii_start(s@),
{
    let k = leading_space_len(s);
    let n = s.unicode_len();
    s.substring_char(k, n)
}

/// Whether `s` begins with the character `c`.
pub fn starts_with_char(s: &str, c: char) -> (r: bool)
    ensures
        r == starts_with(s@, seq![c]),
        r == (s@.len() > 0 && s@[0] == c),
{
    let n = s.unicode_len();
    if n == 0 {
        false
    } else {
        let first = s.get_char(0);
        assert(s@.subrange(0, 1) =~= seq![s@[0]]);
        assert(seq![c][0] == c);
        first == c
    }
}

/// Whether `s` begins with the character `c` twice.
pub fn starts_with_two(s: &str, c: char) -> (r: bool)
    ensures
        r == starts_with(s@, seq![c, c]),
{
    let n = s.unicode_len();
    if n < 2 {
        false
    } else {
        let first = s.get_char(0);
        let second = s.get_char(1);
        assert(s@.subrange(0, 2) =~= seq![s@[0], s@[1]]);
        first == c && second == c
    }
}

/// Returns whether the text is a relative link that names its own authority.
/// Textually, it looks like `//host/this`.
pub fn is_scheme_relative_link(text: &str) -> (r: bool)
    ensures
        r == scheme_relative(text@),
{
    starts_with_two(trim_start(text), '/')
}

/// Returns whether the text is a relative link that is relative to the
/// domain root. Textually, it looks like `/this`.
pub fn is_root_relative_link(text: &str) -> (r: bool)
    ensures
        r == root_relative(text@),
{
    !is_scheme_relative_link(text) && starts_with_char(trim_start(text), '/')
}

} // verus!
