//! URL algebra for rooted resolution: the confined join and its inverse,
//! the relative text of one URL below another.

use vstd::prelude::*;
use vstd::string::*;
use crate::error::{ErrorKind, ErrorView};
use crate::text::{find_char, starts_with_char, str_eq};
use crate::url_model::{
    joined, opt_str_eq, opt_view, same_front, same_strings, strings_view, url_parse, Url, UrlView,
};

verus! {

/// The root that stands in for the root of a `file:` base while subpaths are
/// joined: a `file:` URL with the path `/` and a reserved host that nothing
/// resolves.
pub const SENTINEL_ROOT: &'static str = "file://secret-lychee-base-url.invalid/";

/// Two URLs have the same scheme, host and port.
pub open spec fn same_origin(a: UrlView, b: UrlView) -> bool {
    a.scheme == b.scheme && a.host == b.host && a.port == b.port
}

/// `u` lies in the directory of `base` or below it: both have a path of
/// segments, the scheme, host and port agree, and the segments of `base`
/// before its last are the first segments of `u` before its last.
pub open spec fn within(u: UrlView, base: UrlView) -> bool {
    &&& same_origin(u, base)
    &&& u.segments is Some
    &&& base.segments is Some
    &&& u.segments->0.len() > 0
    &&& base.segments->0.len() > 0
    &&& base.segments->0.drop_last().is_prefix_of(u.segments->0.drop_last())
}

/// Segments written one after the other with a slash between them.
pub open spec fn join_with_slash(s: Seq<Seq<char>>) -> Seq<char>
    decreases s.len(),
{
    if s.len() == 0 {
        Seq::empty()
    } else if s.len() == 1 {
        s[0]
    } else {
        join_with_slash(s.drop_last()) + seq!['/'] + s.last()
    }
}

/// A path, with `first` as its first segment, that a join would not read as
/// a path below the base: empty text names the base itself, a leading slash
/// starts at the root, and a colon in the first segment ends a scheme.
pub open spec fn needs_dot(path: Seq<char>, first: Seq<char>) -> bool {
    path.len() == 0 || path[0] == '/' || first.contains(':')
}

/// The path of `u` as seen from a `base` that it lies within: nothing where
/// the two paths are the same, else the segments of `u` from the last of
/// `base` on, with `./` in front where the text would otherwise be empty,
/// start with a slash or hold a colon in its first segment.
pub open spec fn relative_path(u: UrlView, base: UrlView) -> Seq<char> {
    let us = u.segments->0;
    let bs = base.segments->0;
    if us == bs {
        Seq::empty()
    } else {
        let rest = join_with_slash(us.skip(bs.len() - 1));
        if needs_dot(rest, us[bs.len() - 1]) {
            seq!['.', '/'] + rest
        } else {
            rest
        }
    }
}

/// `path` followed by the query and the fragment of `u`.
pub open spec fn with_query_and_fragment(path: Seq<char>, u: UrlView) -> Seq<char> {
    let query = match u.query {
        Some(q) => seq!['?'] + q,
        None => Seq::empty(),
    };
    let fragment = match u.fragment {
        Some(f) => seq!['#'] + f,
        None => Seq::empty(),
    };
    path + query + fragment
}

/// The relative text that leads from `base` to a `u` within it.
pub open spec fn relative_text(u: UrlView, base: UrlView) -> Seq<char> {
    with_query_and_fragment(relative_path(u, base), u)
}

/// Joining `text` onto `base` gives `u`, in its serialization and in every
/// part.
pub open spec fn leads_to(base: UrlView, text: Seq<char>, u: UrlView) -> bool {
    joined(base.text, text) == Ok::<UrlView, ::url::ParseError>(u)
}

/// Text that begins by going up: `..` alone, or `..` before a slash, a query
/// or a fragment.
pub open spec fn leads_up(text: Seq<char>) -> bool {
    &&& text.len() >= 2
    &&& text[0] == '.'
    &&& text[1] == '.'
    &&& (text.len() == 2 || text[2] == '/' || text[2] == '?' || text[2] == '#')
}

/// The relative text of `u` as a descendant of `prefix`: the text that,
/// joined onto `prefix`, gives `u` again; `None` where `u` does not lie
/// within `prefix`, or where the text goes up or does not lead to `u`.
pub open spec fn relative_to(u: UrlView, prefix: UrlView) -> Option<Seq<char>> {
    if within(u, prefix) && !leads_up(relative_text(u, prefix)) && leads_to(
        prefix,
        relative_text(u, prefix),
        u,
    ) {
        Some(relative_text(u, prefix))
    } else {
        None
    }
}

/// The segments of a prefix that a URL below it must begin with: all of
/// them, but for an empty last one, which only marks a directory.
pub open spec fn stem(segments: Seq<Seq<char>>) -> Seq<Seq<char>> {
    if segments.len() > 0 && segments.last().len() == 0 {
        segments.drop_last()
    } else {
        segments
    }
}

/// A path with an empty segment before its last, as in `/a//b`.
pub open spec fn has_gap(segments: Seq<Seq<char>>) -> bool {
    exists|i: int| 0 <= i < segments.len() - 1 && (#[trigger] segments[i]).len() == 0
}

/// What is left of the path of `u` when the segments of `prefix`, which it
/// begins with, are taken from its front, as a path relative to `prefix`:
/// the segments that are left, after the name of the last segment of
/// `prefix` where it has one, and with a `.` in front where the text would
/// start with a slash.
pub open spec fn stripped_path(u: UrlView, prefix: UrlView) -> Seq<char> {
    let ps = prefix.segments->0;
    let rest = u.segments->0.skip(stem(ps).len() as int);
    if rest.len() == 0 {
        Seq::empty()
    } else {
        let tail = join_with_slash(rest);
        let text = if ps.len() > 0 && ps.last().len() > 0 {
            ps.last() + seq!['/'] + tail
        } else {
            tail
        };
        if text.len() > 0 && text[0] == '/' {
            seq!['.'] + text
        } else {
            text
        }
    }
}

/// The path of [`stripped_path`], followed by the query and the fragment of
/// `u`.
pub open spec fn stripped_text(u: UrlView, prefix: UrlView) -> Seq<char> {
    with_query_and_fragment(stripped_path(u, prefix), u)
}

/// The text of `u` relative to a `prefix` whose segments its path begins
/// with; `None` where scheme, host or port differ, where the path of `u`
/// does not begin with the segments of `prefix`, and where the text goes
/// up. A path without a gap is handed out only where the text leads from
/// `prefix` to `u`.
pub open spec fn stripped(u: UrlView, prefix: UrlView) -> Option<Seq<char>> {
    if same_origin(u, prefix) && u.segments is Some && prefix.segments is Some && stem(
        prefix.segments->0,
    ).is_prefix_of(u.segments->0) && !leads_up(stripped_text(u, prefix)) && (has_gap(
        u.segments->0,
    ) || leads_to(prefix, stripped_text(u, prefix), u)) {
        Some(stripped_text(u, prefix))
    } else {
        None
    }
}

/// The views of a list of string slices.
pub open spec fn strs_view(s: Seq<&str>) -> Seq<Seq<char>> {
    s.map_values(|t: &str| t@)
}

/// Joining the subpaths onto `start` one after the other, from the left. The
/// first join that fails ends it, with the parser's error and the subpath.
pub open spec fn join_all(start: UrlView, subpaths: Seq<Seq<char>>) -> Result<UrlView, ErrorView>
    decreases subpaths.len(),
{
    if subpaths.len() == 0 {
        Ok(start)
    } else {
        match joined(start.text, subpaths[0]) {
            Ok(next) => join_all(next, subpaths.drop_first()),
            Err(e) => Err(ErrorView::ParseUrl(e, subpaths[0])),
        }
    }
}

/// `candidate` where it lies within `base`, else `base`.
pub open spec fn confined(candidate: UrlView, base: UrlView) -> UrlView {
    if within(candidate, base) {
        candidate
    } else {
        base
    }
}

/// The relative text of `loose`, a URL joined below the sentinel `root`, put
/// onto the real `base` and confined to it. A `loose` that has left the
/// sentinel root counts as the empty text.
pub open spec fn rebased(loose: UrlView, root: UrlView, base: UrlView) -> Result<UrlView, ErrorView> {
    let text = match relative_to(loose, root) {
        Some(t) => t,
        None => Seq::empty(),
    };
    match joined(base.text, text) {
        Ok(candidate) => Ok(confined(candidate, base)),
        Err(e) => Err(ErrorView::ParseUrl(e, text)),
    }
}

/// The rooted join of `subpaths` onto `base`.
///
/// For a base of any scheme but `file` it is the plain join of the subpaths,
/// one after the other. For a `file:` base the subpaths are joined onto the
/// sentinel root, and the relative text of the outcome is joined onto
/// `base` and confined to it.
pub open spec fn rooted_join(base: UrlView, subpaths: Seq<Seq<char>>) -> Result<UrlView, ErrorView> {
    if base.scheme != "file"@ {
        join_all(base, subpaths)
    } else {
        match url_parse(SENTINEL_ROOT@) {
            Err(e) => Err(ErrorView::ParseUrl(e, SENTINEL_ROOT@)),
            Ok(root) => match join_all(root, subpaths) {
                Err(e) => Err(e),
                Ok(loose) => rebased(loose, root, base),
            },
        }
    }
}

/// The strings of `v` from `start` on, written with a slash between them.
fn join_from(v: &Vec<String>, start: usize) -> (r: String)
    requires
        start <= v@.len(),
    ensures
        r@ == join_with_slash(strings_view(v@).skip(start as int)),
{
    let ghost sv = strings_view(v@);
    let mut out = String::new();
    let mut i: usize = start;
    while i < v.len()
        invariant
            start <= i <= v@.len(),
            sv == strings_view(v@),
            out@ == join_with_slash(sv.subrange(start as int, i as int)),
        decreases v.len() - i,
    {
        proof {
            reveal_strlit("/");
            assert(sv.subrange(start as int, i + 1).drop_last() =~= sv.subrange(
                start as int,
                i as int,
            ));
        }
        if i > start {
            out.append("/");
        }
        out.append(v[i].as_str());
        i = i + 1;
    }
    out
}

/// Whether one of the strings before the last is empty.
fn has_empty_before_last(v: &Vec<String>) -> (r: bool)
    ensures
        r == has_gap(strings_view(v@)),
{
    let ghost sv = strings_view(v@);
    if v.len() == 0 {
        return false;
    }
    let mut i: usize = 0;
    while i < v.len() - 1
        invariant
            0 < v@.len(),
            i <= v@.len() - 1,
            sv == strings_view(v@),
            forall|j: int| 0 <= j < i ==> (#[trigger] sv[j]).len() > 0,
        decreases v.len() - i,
    {
        if v[i].as_str().unicode_len() == 0 {
            assert(sv[i as int].len() == 0);
            return true;
        }
        i = i + 1;
    }
    false
}

/// Whether the text begins by going up.
fn goes_up(text: &str) -> (r: bool)
    ensures
        r == leads_up(text@),
{
    let n = text.unicode_len();
    if n < 2 || text.get_char(0) != '.' || text.get_char(1) != '.' {
        return false;
    }
    if n == 2 {
        return true;
    }
    let third = text.get_char(2);
    third == '/' || third == '?' || third == '#'
}

impl Url {
    /// Whether this URL lies in the directory of `base` or below it.
    pub fn is_within(&self, base: &Url) -> (r: bool)
        ensures
            r == within(self@, base@),
    {
        if !self.has_origin_of(base) {
            return false;
        }
        match (self.path_segments(), base.path_segments()) {
            (Some(us), Some(bs)) => {
                if us.len() == 0 || bs.len() == 0 {
                    return false;
                }
                let n = bs.len() - 1;
                if us.len() - 1 < n {
                    return false;
                }
                same_front(bs, us, n)
            },
            _ => false,
        }
    }

    /// The relative text that leads from `base` to this URL.
    fn text_from(&self, base: &Url) -> (r: String)
        requires
            within(self@, base@),
        ensures
            r@ == relative_text(self@, base@),
    {
        let us = self.path_segments().unwrap();
        let bs = base.path_segments().unwrap();
        let out = if same_strings(us, bs) {
            String::new()
        } else {
            let first = us[bs.len() - 1].as_str();
            let rest = join_from(us, bs.len() - 1);
            if rest.as_str().unicode_len() == 0 || starts_with_char(rest.as_str(), '/')
                || find_char(first, ':').is_some() {
                String::from_str("./").concat(rest.as_str())
            } else {
                rest
            }
        };
        proof {
            reveal_strlit("./");
        }
        self.with_suffix(out)
    }

    /// `path` followed by the query and the fragment of this URL.
    fn with_suffix(&self, path: String) -> (r: String)
        ensures
            r@ == with_query_and_fragment(path@, self@),
    {
        let mut out = path;
        proof {
            reveal_strlit("?");
            reveal_strlit("#");
        }
        match self.query() {
            Some(q) => {
                out.append("?");
                out.append(q);
            },
            None => {},
        }
        assert(out@ =~= path@ + match self@.query {
            Some(q) => seq!['?'] + q,
            None => Seq::empty(),
        });
        match self.fragment() {
            Some(f) => {
                out.append("#");
                out.append(f);
            },
            None => {},
        }
        out
    }

    /// Whether this URL has the scheme, the host and the port of `other`.
    pub fn has_origin_of(&self, other: &Url) -> (r: bool)
        ensures
            r == same_origin(self@, other@),
    {
        str_eq(self.scheme(), other.scheme()) && opt_str_eq(self.host_str(), other.host_str())
            && self.port() == other.port()
    }

    /// Computes the relative text `r` with `prefix.join(r) == self`, for a
    /// URL that lies within `prefix` only: the result never leads upwards.
    ///
    /// The segments of `prefix` before its last are matched against the
    /// segments of this URL; where one of them is left unmatched, or scheme,
    /// host or port differ, there is no relation and the result is `None`.
    /// A URL with the very path of `prefix` has the empty path. The query
    /// and the fragment of this URL follow the path. Text that would be
    /// empty, start with a slash or hold a colon in its first segment gets
    /// `./` in front, so that a join does not take it for the base itself,
    /// for a link from the root or for a URL with a scheme. Text
    /// that begins with `..`, or that a join onto `prefix` does not lead
    /// back to this URL, is not handed out.
    pub fn strictly_relative_to(&self, prefix: &Url) -> (r: Option<String>)
        ensures
            opt_view(r) == relative_to(self@, prefix@),
            r matches Some(text) ==> {
                &&& within(self@, prefix@)
                &&& !leads_up(text@)
                &&& !(text@.len() > 0 && text@[0] == '/')
                &&& leads_to(prefix@, text@, self@)
            },
    {
        if !self.is_within(prefix) {
            return None;
        }
        let text = self.text_from(prefix);
        if goes_up(text.as_str()) {
            return None;
        }
        match prefix.join(text.as_str()) {
            Ok(u) => {
                if u.same_as(self) {
                    Some(text)
                } else {
                    None
                }
            },
            Err(_) => None,
        }
    }

    /// Takes the segments of `prefix` from the front of this URL's path and
    /// returns the rest as text relative to `prefix`, followed by the query
    /// and the fragment of this URL.
    ///
    /// The last segment of `prefix` is either a real file name or empty, if
    /// `prefix` ends in `/`; an empty one is not matched. The result is
    /// `None` where scheme, host or port of the two URLs differ, and where
    /// the path of this URL does not begin with the segments of `prefix`.
    /// Text that would start with a slash gets a `.` in front. Text that
    /// begins with `..` is not handed out; nor is text that a join onto
    /// `prefix` does not lead back to this URL, unless the path of this URL
    /// has an empty segment before its last.
    pub fn strip_prefix(&self, prefix: &Url) -> (r: Option<String>)
        ensures
            opt_view(r) == stripped(self@, prefix@),
            r matches Some(text) ==> {
                &&& same_origin(self@, prefix@)
                &&& !leads_up(text@)
                &&& !(text@.len() > 0 && text@[0] == '/')
                &&& has_gap(self@.segments->0) || leads_to(prefix@, text@, self@)
            },
    {
        if !self.has_origin_of(prefix) {
            return None;
        }
        let (us, ps) = match (self.path_segments(), prefix.path_segments()) {
            (Some(us), Some(ps)) => (us, ps),
            _ => { return None; },
        };
        let named = ps.len() > 0 && ps[ps.len() - 1].as_str().unicode_len() > 0;
        let n = if ps.len() > 0 && !named {
            ps.len() - 1
        } else {
            ps.len()
        };
        if !same_front(ps, us, n) {
            return None;
        }
        proof {
            reveal_strlit("/");
            reveal_strlit(".");
            reveal_strlit("?");
            reveal_strlit("#");
        }
        let path = if us.len() == n {
            String::new()
        } else {
            let tail = join_from(us, n);
            let text = if named {
                let mut head = ps[ps.len() - 1].clone();
                head.append("/");
                head.append(tail.as_str());
                head
            } else {
                tail
            };
            if starts_with_char(text.as_str(), '/') {
                String::from_str(".").concat(text.as_str())
            } else {
                text
            }
        };
        assert(path@ == stripped_path(self@, prefix@));
        let text = self.with_suffix(path);
        if goes_up(text.as_str()) {
            return None;
        }
        if has_empty_before_last(us) {
            return Some(text);
        }
        match prefix.join(text.as_str()) {
            Ok(u) => {
                if u.same_as(self) {
                    Some(text)
                } else {
                    None
                }
            },
            Err(_) => None,
        }
    }

    /// `candidate`, unless it has left the directory of this URL: then this
    /// URL itself.
    pub fn confine(&self, candidate: Url) -> (r: Url)
        ensures
            r@ == confined(candidate@, self@),
            within(r@, self@) || r@ == self@,
    {
        if candidate.is_within(self) {
            candidate
        } else {
            self.clone()
        }
    }

    /// Joins the subpaths onto `start`, one after the other.
    fn join_each(start: Url, subpaths: &[&str]) -> (r: Result<Url, ErrorKind>)
        ensures
            match r {
                Ok(u) => join_all(start@, strs_view(subpaths@)) == Ok::<UrlView, ErrorView>(u@),
                Err(e) => join_all(start@, strs_view(subpaths@)) == Err::<UrlView, ErrorView>(e@),
            },
    {
        let ghost all = strs_view(subpaths@);
        let ghost first = start@;
        let mut url = start;
        let mut i: usize = 0;
        assert(all.skip(0) =~= all);
        while i < subpaths.len()
            invariant
                i <= subpaths@.len(),
                all == strs_view(subpaths@),
                first == start@,
                join_all(first, all) == join_all(url@, all.skip(i as int)),
            decreases subpaths.len() - i,
        {
            let ghost rest = all.skip(i as int);
            assert(rest.drop_first() =~= all.skip(i + 1));
            match url.join(subpaths[i]) {
                Ok(next) => {
                    url = next;
                },
                Err(e) => {
                    return Err(ErrorKind::ParseUrl(e, subpaths[i].to_owned()));
                },
            }
            i = i + 1;
        }
        Ok(url)
    }

    /// Puts a URL that was joined below the sentinel `root` onto this URL,
    /// the real base: its relative text is joined onto the base, and the
    /// outcome is confined to the base.
    pub fn rebase(&self, loose: &Url, root: &Url) -> (r: Result<Url, ErrorKind>)
        ensures
            match r {
                Ok(u) => rebased(loose@, root@, self@) == Ok::<UrlView, ErrorView>(u@),
                Err(e) => rebased(loose@, root@, self@) == Err::<UrlView, ErrorView>(e@),
            },
            r matches Ok(u) ==> within(u@, self@) || u@ == self@,
    {
        let text = match loose.strictly_relative_to(root) {
            Some(t) => t,
            None => String::new(),
        };
        match self.join(text.as_str()) {
            Ok(candidate) => Ok(self.confine(candidate)),
            Err(e) => Err(ErrorKind::ParseUrl(e, text)),
        }
    }

    /// Joins the given subpaths, using the current URL as the base URL.
    ///
    /// `url.join_rooted(&[path])` is `url.join(path)`, but for a `file:`
    /// base. There the subpaths are joined onto a root of their own, which
    /// no `..` can leave, and what they come to is put onto the base: the
    /// result has the scheme, host and port of the base and lies in its
    /// directory or below it. For any other scheme the subpaths are joined
    /// one after the other, and a subpath may change the host.
    ///
    /// A subpath that cannot be joined ends it with `ParseUrl`, which holds
    /// the parser's error and that subpath.
    pub fn join_rooted(&self, subpaths: &[&str]) -> (r: Result<Url, ErrorKind>)
        ensures
            match r {
                Ok(u) => rooted_join(self@, strs_view(subpaths@)) == Ok::<UrlView, ErrorView>(u@),
                Err(e) => rooted_join(self@, strs_view(subpaths@)) == Err::<UrlView, ErrorView>(e@),
            },
            self@.scheme == "file"@ ==> (r matches Ok(u) ==> within(u@, self@) || u@ == self@),
    {
        if !self.is_file() {
            return Url::join_each(self.clone(), subpaths);
        }
        let root = match Url::parse(SENTINEL_ROOT) {
            Ok(root) => root,
            Err(e) => {
                return Err(ErrorKind::ParseUrl(e, SENTINEL_ROOT.to_owned()));
            },
        };
        let loose = match Url::join_each(root.clone(), subpaths) {
            Ok(loose) => loose,
            Err(e) => {
                return Err(e);
            },
        };
        self.rebase(&loose, &root)
    }
}

} // verus!
