//! Link text that is no URL of its own, sorted by what it is relative to.

use vstd::prelude::*;
use crate::error::{ErrorKind, ErrorView};
use crate::text::{
    is_root_relative_link, is_scheme_relative_link, root_relative, scheme_relative,
    trim_ascii_start, trim_start,
};
use crate::url_model::{url_parse, Url, UrlView};

verus! {

/// A fully-qualified URL, ready to be fetched.
#[derive(Debug, PartialEq, Eq)]
pub struct Uri {
    /// The URL itself.
    pub url: Url,
}

/// A relative link, by the kind of base that it needs.
#[derive(Debug, PartialEq, Eq, Clone, Copy)]
pub enum RelativeUri<'a> {
    /// Relative to the root of the base: `/this`.
    RootRel(&'a str),
    /// Relative to the scheme of the base only: `//host/this`.
    SchemeRel(&'a str),
    /// Relative to the document that holds the link: `this`, `./this`,
    /// `#this`, or nothing at all.
    LocalRel(&'a str),
}

/// A [`RelativeUri`] as mathematical values.
pub enum RelativeView {
    RootRel(Seq<char>),
    SchemeRel(Seq<char>),
    LocalRel(Seq<char>),
}

impl<'a> View for RelativeUri<'a> {
    type V = RelativeView;

    open spec fn view(&self) -> RelativeView {
        match *self {
            RelativeUri::RootRel(x) => RelativeView::RootRel(x@),
            RelativeUri::SchemeRel(x) => RelativeView::SchemeRel(x@),
            RelativeUri::LocalRel(x) => RelativeView::LocalRel(x@),
        }
    }
}

/// Link text as a URL of its own or as a relative link.
#[derive(Debug)]
pub enum UriOrRelative<'a> {
    /// The text is a URL.
    Absolute(Uri),
    /// The text needs a base.
    Relative(RelativeUri<'a>),
}

/// A [`UriOrRelative`] as mathematical values.
pub enum UriOrRelativeView {
    Absolute(UrlView),
    Relative(RelativeView),
}

impl<'a> View for UriOrRelative<'a> {
    type V = UriOrRelativeView;

    open spec fn view(&self) -> UriOrRelativeView {
        match *self {
            UriOrRelative::Absolute(uri) => UriOrRelativeView::Absolute(uri.url@),
            UriOrRelative::Relative(r) => UriOrRelativeView::Relative(r@),
        }
    }
}

impl Clone for Uri {
    fn clone(&self) -> (r: Self)
        ensures
            r.url@ == self.url@,
    {
        Uri { url: self.url.clone() }
    }
}

/// The kind of a relative link: two leading slashes name an authority, one
/// starts at the root, anything else is relative to the document.
pub open spec fn classified(text: Seq<char>) -> RelativeView {
    if scheme_relative(text) {
        RelativeView::SchemeRel(text)
    } else if root_relative(text) {
        RelativeView::RootRel(text)
    } else {
        RelativeView::LocalRel(text)
    }
}

/// What link text is, once the whitespace before it is dropped: the URL
/// that it parses to; a relative link, where the parser misses a base and
/// nothing else; else the parser's error with the text.
pub open spec fn parsed_or_relative(text: Seq<char>) -> Result<UriOrRelativeView, ErrorView> {
    let text = trim_ascii_start(text);
    match url_parse(text) {
        Ok(u) => Ok(UriOrRelativeView::Absolute(u)),
        Err(e) => if e == ::url::ParseError::RelativeUrlWithoutBase {
            Ok(UriOrRelativeView::Relative(classified(text)))
        } else {
            Err(ErrorView::ParseUrl(e, text))
        },
    }
}

impl<'a> RelativeUri<'a> {
    /// The text of the link.
    pub open spec fn spec_link_text(&self) -> Seq<char> {
        match *self {
            RelativeUri::RootRel(x) => x@,
            RelativeUri::SchemeRel(x) => x@,
            RelativeUri::LocalRel(x) => x@,
        }
    }

    /// The text of the link.
    pub fn link_text(&self) -> (r: &str)
        ensures
            r@ == self.spec_link_text(),
    {
        match self {
            RelativeUri::RootRel(x) | RelativeUri::SchemeRel(x) | RelativeUri::LocalRel(x) => x,
        }
    }

    /// Sorts the text of a relative link by the base that it needs.
    pub fn classify(text: &'a str) -> (r: RelativeUri<'a>)
        ensures
            r@ == classified(text@),
            r.spec_link_text() == text@,
    {
        if is_scheme_relative_link(text) {
            RelativeUri::SchemeRel(text)
        } else if is_root_relative_link(text) {
            RelativeUri::RootRel(text)
        } else {
            RelativeUri::LocalRel(text)
        }
    }
}

/// Parses link text as a URL, or, where it is none for want of a base, as
/// a relative link. Whitespace before the text is dropped first.
pub fn parse_url_or_relative(text: &str) -> (r: Result<UriOrRelative<'_>, ErrorKind>)
    ensures
        match r {
            Ok(p) => parsed_or_relative(text@) == Ok::<UriOrRelativeView, ErrorView>(p@),
            Err(e) => parsed_or_relative(text@) == Err::<UriOrRelativeView, ErrorView>(e@),
        },
{
    let text = trim_start(text);
    match Url::parse(text) {
        Ok(url) => Ok(UriOrRelative::Absolute(Uri { url })),
        Err(::url::ParseError::RelativeUrlWithoutBase) => Ok(
            UriOrRelative::Relative(RelativeUri::classify(text)),
        ),
        Err(e) => Err(ErrorKind::ParseUrl(e, text.to_owned())),
    }
}

} // verus!
