//! The URL value that the resolution logic works on.
//!
//! Parsing and joining are the work of the `url` crate. A [`Url`] holds, as
//! plain values, what that crate reports of a parsed URL: its serialization
//! and the parts that the logic reads. Every `Url` is made by parsing.

use vstd::prelude::*;
use crate::text::str_eq;

verus! {

/// The errors of the `url` crate's parser, one variant for each of its kinds.
#[verifier::external_type_specification]
pub struct ExParseError(::url::ParseError);

/// What a [`Url`] holds, as mathematical values.
pub struct UrlView {
    /// The serialization of the URL.
    pub text: Seq<char>,
    /// The scheme, lower case, without the colon.
    pub scheme: Seq<char>,
    /// The host as it is written in the serialization, if there is one.
    pub host: Option<Seq<char>>,
    /// The port, unless it is missing or the default of the scheme.
    pub port: Option<u16>,
    /// The path cut at its slashes, without the leading slash; `None` for a
    /// URL that cannot be a base.
    pub segments: Option<Seq<Seq<char>>>,
    /// The query, without the question mark.
    pub query: Option<Seq<char>>,
    /// The fragment, without the hash sign.
    pub fragment: Option<Seq<char>>,
    /// Whether nothing can be joined onto the URL, as with `data:` and
    /// `mailto:` URLs.
    pub cannot_be_a_base: bool,
}

/// An absolute URL.
#[derive(Debug, PartialEq, Eq)]
pub struct Url {
    text: String,
    scheme: String,
    host: Option<String>,
    port: Option<u16>,
    segments: Option<Vec<String>>,
    query: Option<String>,
    fragment: Option<String>,
    cannot_be_a_base: bool,
}

/// The views of optional text.
pub open spec fn opt_view(o: Option<String>) -> Option<Seq<char>> {
    match o {
        Some(s) => Some(s@),
        None => None,
    }
}

/// The views of the strings of a list.
pub open spec fn strings_view(v: Seq<String>) -> Seq<Seq<char>> {
    v.map_values(|s: String| s@)
}

impl View for Url {
    type V = UrlView;

    closed spec fn view(&self) -> UrlView {
        UrlView {
            text: self.text@,
            scheme: self.scheme@,
            host: opt_view(self.host),
            port: self.port,
            segments: match self.segments {
                Some(v) => Some(strings_view(v@)),
                None => None,
            },
            query: opt_view(self.query),
            fragment: opt_view(self.fragment),
            cannot_be_a_base: self.cannot_be_a_base,
        }
    }
}

/// What `url::Url::parse` makes of `input`: the parts of the URL that it
/// parses, or its error.
pub uninterp spec fn url_parse(input: Seq<char>) -> Result<UrlView, ::url::ParseError>;

/// What `url::Url::join` makes of `input` on the URL that `base` parses to:
/// the serialization of the joined URL, or the parser's error.
pub uninterp spec fn url_join(base: Seq<char>, input: Seq<char>) -> Result<
    Seq<char>,
    ::url::ParseError,
>;

/// The serialization of the URL that `text` parses to, after
/// `url::PathSegmentsMut::pop_if_empty`.
pub uninterp spec fn url_pop_if_empty(text: Seq<char>) -> Seq<char>;

/// Joining `input` onto a URL with the serialization `base`, and parsing
/// what comes out.
pub open spec fn joined(base: Seq<char>, input: Seq<char>) -> Result<UrlView, ::url::ParseError> {
    match url_join(base, input) {
        Ok(text) => url_parse(text),
        Err(e) => Err(e),
    }
}

/// The segments of a path without the empty segment at its end. A path of
/// one segment stays as it is.
pub open spec fn popped(segments: Seq<Seq<char>>) -> Seq<Seq<char>> {
    if segments.len() > 1 && segments.last().len() == 0 {
        segments.drop_last()
    } else {
        segments
    }
}

/// `v` is `u` without the trailing slash of its path: the segments of `v`
/// are those of `u` without an empty last one, and scheme, host, port,
/// query and fragment are the same.
pub open spec fn is_popped(v: UrlView, u: UrlView) -> bool {
    &&& v.scheme == u.scheme
    &&& v.host == u.host
    &&& v.port == u.port
    &&& v.query == u.query
    &&& v.fragment == u.fragment
    &&& v.cannot_be_a_base == u.cannot_be_a_base
    &&& match (v.segments, u.segments) {
        (Some(vs), Some(us)) => vs == popped(us),
        (None, None) => true,
        _ => false,
    }
}

/// A URL without the trailing slash of its path: what the url crate makes
/// of it, where that is the URL without the empty last segment of its path
/// and nothing else is changed; else the URL as it is.
pub open spec fn without_trailing_slash(u: UrlView) -> UrlView {
    match url_parse(url_pop_if_empty(u.text)) {
        Ok(v) => if is_popped(v, u) {
            v
        } else {
            u
        },
        Err(_) => u,
    }
}

/// Calls `url::Url::parse` on `input` and reads the parts of the URL out
/// with `as_str`, `scheme`, `host_str`, `port`, `path_segments`, `query`,
/// `fragment` and `cannot_be_a_base`. The contract claims only that the
/// outcome depends on `input` alone.
#[verifier::external_body]
fn parse_outside(input: &str) -> (r: Result<Url, ::url::ParseError>)
    ensures
        match r {
            Ok(u) => url_parse(input@) == Ok::<UrlView, ::url::ParseError>(u@),
            Err(e) => url_parse(input@) == Err::<UrlView, ::url::ParseError>(e),
        },
{
    let u = ::url::Url::parse(input)?;
    Ok(Url {
        text: u.as_str().to_string(),
        scheme: u.scheme().to_string(),
        host: u.host_str().map(str::to_string),
        port: u.port(),
        segments: u.path_segments().map(|s| s.map(str::to_string).collect()),
        query: u.query().map(str::to_string),
        fragment: u.fragment().map(str::to_string),
        cannot_be_a_base: u.cannot_be_a_base(),
    })
}

/// Calls `url::Url::join` with `input` on the URL that `url::Url::parse`
/// makes of `base`, and hands out the serialization. The contract claims
/// only that the outcome depends on the two texts alone.
#[verifier::external_body]
fn join_outside(base: &str, input: &str) -> (r: Result<String, ::url::ParseError>)
    ensures
        match r {
            Ok(s) => url_join(base@, input@) == Ok::<Seq<char>, ::url::ParseError>(s@),
            Err(e) => url_join(base@, input@) == Err::<Seq<char>, ::url::ParseError>(e),
        },
{
    Ok(::url::Url::parse(base)?.join(input)?.into())
}

/// Calls `url::PathSegmentsMut::pop_if_empty` on the URL that
/// `url::Url::parse` makes of `text`, and hands out the serialization; a
/// text that does not parse, or a URL that cannot be a base, comes back as
/// it is. The contract claims only that the outcome depends on `text` alone.
#[verifier::external_body]
fn pop_if_empty_outside(text: &str) -> (r: String)
    ensures
        r@ == url_pop_if_empty(text@),
{
    match ::url::Url::parse(text) {
        Ok(mut u) => {
            if let Ok(mut segments) = u.path_segments_mut() {
                segments.pop_if_empty();
            }
            u.into()
        },
        Err(_) => text.to_string(),
    }
}

/// Whether two optional texts are the same.
pub fn opt_str_eq(a: Option<&str>, b: Option<&str>) -> (r: bool)
    ensures
        r == (match (a, b) {
            (Some(x), Some(y)) => x@ == y@,
            (None, None) => true,
            _ => false,
        }),
{
    match (a, b) {
        (Some(x), Some(y)) => str_eq(x, y),
        (None, None) => true,
        _ => false,
    }
}

/// Whether the first `n` strings of `a` are the first `n` strings of `b`.
pub fn same_front(a: &Vec<String>, b: &Vec<String>, n: usize) -> (r: bool)
    requires
        n <= a@.len(),
    ensures
        r == strings_view(a@).subrange(0, n as int).is_prefix_of(strings_view(b@)),
{
    let ghost av = strings_view(a@);
    let ghost bv = strings_view(b@);
    if b.len() < n {
        return false;
    }
    let mut i: usize = 0;
    while i < n
        invariant
            i <= n <= a@.len(),
            n <= b@.len(),
            av == strings_view(a@),
            bv == strings_view(b@),
            forall|j: int| 0 <= j < i ==> av[j] == bv[j],
        decreases n - i,
    {
        if !str_eq(a[i].as_str(), b[i].as_str()) {
            assert(!av.subrange(0, n as int).is_prefix_of(bv)) by {
                if av.subrange(0, n as int).is_prefix_of(bv) {
                    assert(bv.subrange(0, n as int)[i as int] == bv[i as int]);
                }
            }
            return false;
        }
        i = i + 1;
    }
    true
}

/// Whether two lists hold the same strings.
pub fn same_strings(a: &Vec<String>, b: &Vec<String>) -> (r: bool)
    ensures
        r == (strings_view(a@) == strings_view(b@)),
{
    let ghost av = strings_view(a@);
    let ghost bv = strings_view(b@);
    if a.len() != b.len() {
        return false;
    }
    let front = same_front(a, b, a.len());
    assert(av.subrange(0, a@.len() as int) =~= av);
    proof {
        if front {
            assert(av =~= bv);
        }
    }
    front
}

/// Copies optional text.
fn clone_opt(o: &Option<String>) -> (r: Option<String>)
    ensures
        r == *o,
{
    match o {
        Some(s) => Some(s.clone()),
        None => None,
    }
}

/// Copies a list of strings.
fn clone_strings(v: &Vec<String>) -> (r: Vec<String>)
    ensures
        r@ == v@,
{
    let mut out: Vec<String> = Vec::new();
    let mut i: usize = 0;
    while i < v.len()
        invariant
            i <= v.len(),
            out@ == v@.subrange(0, i as int),
        decreases v.len() - i,
    {
        out.push(v[i].clone());
        i = i + 1;
    }
    out
}

impl Clone for Url {
    fn clone(&self) -> (r: Self)
        ensures
            r@ == self@,
    {
        Url {
            text: self.text.clone(),
            scheme: self.scheme.clone(),
            host: clone_opt(&self.host),
            port: self.port,
            segments: match &self.segments {
                Some(v) => Some(clone_strings(v)),
                None => None,
            },
            query: clone_opt(&self.query),
            fragment: clone_opt(&self.fragment),
            cannot_be_a_base: self.cannot_be_a_base,
        }
    }
}

impl Url {
    /// Parses an absolute URL from a string.
    pub fn parse(input: &str) -> (r: Result<Url, ::url::ParseError>)
        ensures
            match r {
                Ok(u) => url_parse(input@) == Ok::<UrlView, ::url::ParseError>(u@),
                Err(e) => url_parse(input@) == Err::<UrlView, ::url::ParseError>(e),
            },
    {
        parse_outside(input)
    }

    /// Parses `input` with this URL as the base.
    pub fn join(&self, input: &str) -> (r: Result<Url, ::url::ParseError>)
        ensures
            match r {
                Ok(u) => joined(self@.text, input@) == Ok::<UrlView, ::url::ParseError>(u@),
                Err(e) => joined(self@.text, input@) == Err::<UrlView, ::url::ParseError>(e),
            },
    {
        match join_outside(self.text.as_str(), input) {
            Ok(text) => parse_outside(text.as_str()),
            Err(e) => Err(e),
        }
    }

    /// Whether this URL is `other` without the trailing slash of its path.
    pub fn is_popped_from(&self, other: &Url) -> (r: bool)
        ensures
            r == is_popped(self@, other@),
    {
        if !(str_eq(self.scheme.as_str(), other.scheme.as_str()) && opt_str_eq(
            self.host_str(),
            other.host_str(),
        ) && self.port == other.port && opt_str_eq(self.query(), other.query()) && opt_str_eq(
            self.fragment(),
            other.fragment(),
        ) && self.cannot_be_a_base == other.cannot_be_a_base) {
            return false;
        }
        match (&self.segments, &other.segments) {
            (Some(vs), Some(us)) => {
                let n = if us.len() > 1 && us[us.len() - 1].as_str().unicode_len() == 0 {
                    us.len() - 1
                } else {
                    us.len()
                };
                let ghost uv = strings_view(us@);
                let ghost vv = strings_view(vs@);
                assert(uv.subrange(0, n as int) =~= popped(uv));
                if vs.len() != n {
                    return false;
                }
                let same = same_front(us, vs, n);
                proof {
                    if popped(uv).is_prefix_of(vv) {
                        assert(vv.subrange(0, n as int) =~= vv);
                    }
                }
                same
            },
            (None, None) => true,
            _ => false,
        }
    }

    /// This URL without the trailing slash of its path, if it has one that
    /// is not the whole path: the last segment of the path is dropped if it
    /// is empty and not the only one, and nothing else is changed.
    pub fn pop_if_empty(self) -> (r: Url)
        ensures
            r@ == without_trailing_slash(self@),
            r@ == self@ || is_popped(r@, self@),
    {
        let text = pop_if_empty_outside(self.text.as_str());
        match parse_outside(text.as_str()) {
            Ok(u) => {
                if u.is_popped_from(&self) {
                    u
                } else {
                    self
                }
            },
            Err(_) => self,
        }
    }

    /// The serialization of this URL.
    pub fn as_str(&self) -> (r: &str)
        ensures
            r@ == self@.text,
    {
        self.text.as_str()
    }

    /// The scheme of this URL, lower case and without the colon.
    pub fn scheme(&self) -> (r: &str)
        ensures
            r@ == self@.scheme,
    {
        self.scheme.as_str()
    }

    /// The host of this URL, as its serialization has it.
    pub fn host_str(&self) -> (r: Option<&str>)
        ensures
            match r {
                Some(h) => self@.host == Some(h@),
                None => self@.host is None,
            },
    {
        match &self.host {
            Some(h) => Some(h.as_str()),
            None => None,
        }
    }

    /// The port of this URL, where it is written and not the scheme's default.
    pub fn port(&self) -> (r: Option<u16>)
        ensures
            r == self@.port,
    {
        self.port
    }

    /// The segments of the path, unless this URL cannot be a base.
    pub fn path_segments(&self) -> (r: Option<&Vec<String>>)
        ensures
            match r {
                Some(v) => self@.segments == Some(strings_view(v@)),
                None => self@.segments is None,
            },
    {
        match &self.segments {
            Some(v) => Some(v),
            None => None,
        }
    }

    /// The query of this URL, without the question mark.
    pub fn query(&self) -> (r: Option<&str>)
        ensures
            match r {
                Some(q) => self@.query == Some(q@),
                None => self@.query is None,
            },
    {
        match &self.query {
            Some(q) => Some(q.as_str()),
            None => None,
        }
    }

    /// The fragment of this URL, without the hash sign.
    pub fn fragment(&self) -> (r: Option<&str>)
        ensures
            match r {
                Some(f) => self@.fragment == Some(f@),
                None => self@.fragment is None,
            },
    {
        match &self.fragment {
            Some(f) => Some(f.as_str()),
            None => None,
        }
    }

    /// Whether nothing can be joined onto this URL.
    pub fn cannot_be_a_base(&self) -> (r: bool)
        ensures
            r == self@.cannot_be_a_base,
    {
        self.cannot_be_a_base
    }

    /// Whether the scheme of this URL is `file`.
    pub fn is_file(&self) -> (r: bool)
        ensures
            r == (self@.scheme == "file"@),
    {
        str_eq(self.scheme.as_str(), "file")
    }

    /// Whether two URLs are the same in their serialization and in every
    /// part.
    pub fn same_as(&self, other: &Url) -> (r: bool)
        ensures
            r == (self@ == other@),
    {
        if !(self.text == other.text && self.scheme == other.scheme && opt_str_eq(
            self.host_str(),
            other.host_str(),
        ) && self.port == other.port && opt_str_eq(self.query(), other.query()) && opt_str_eq(
            self.fragment(),
            other.fragment(),
        ) && self.cannot_be_a_base == other.cannot_be_a_base) {
            return false;
        }
        match (&self.segments, &other.segments) {
            (Some(a), Some(b)) => same_strings(a, b),
            (None, None) => true,
            _ => false,
        }
    }

    /// Whether two URLs have the same serialization.
    pub fn same_text(&self, other: &Url) -> (r: bool)
        ensures
            r == (self@.text == other@.text),
    {
        self.text == other.text
    }
}

} // verus!
