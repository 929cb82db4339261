//! What the resolution is given: the source of a document, a declared base,
//! and the raw links found in the document.

use vstd::prelude::*;
use crate::error::{ErrorKind, ErrorView};
use crate::url_model::{url_parse, Url, UrlView};

verus! {

/// The reason given for a URL that nothing can be joined onto.
pub const CANNOT_BE_A_BASE: &'static str = "The given URL cannot be used as a base URL";

/// The reason given for a path that no `file:` URL can be made of.
pub const NOT_ABSOLUTE: &'static str = "The path is not absolute";

/// The reason given where the URL made of a path is not read back.
pub const UNREADABLE: &'static str = "The URL of the path cannot be parsed";

/// A base for the links of a document: a remote URL or a local directory.
#[derive(Debug, PartialEq, Eq)]
pub enum Base {
    /// A directory, by its path.
    Local(String),
    /// A URL that can be a base.
    Remote(Url),
}

/// A [`Base`] as mathematical values.
pub enum BaseView {
    Local(Seq<char>),
    Remote(UrlView),
}

impl View for Base {
    type V = BaseView;

    open spec fn view(&self) -> BaseView {
        match *self {
            Base::Local(path) => BaseView::Local(path@),
            Base::Remote(url) => BaseView::Remote(url@),
        }
    }
}

/// Where a document came from.
#[derive(Debug, PartialEq, Eq)]
pub enum ResolvedInputSource {
    /// A page that was fetched from its URL.
    RemoteUrl(Url),
    /// A file, by its path.
    FsPath(String),
    /// The standard input.
    Stdin,
    /// Text that was handed over as it is.
    Text(String),
}

/// A [`ResolvedInputSource`] as mathematical values.
pub enum SourceView {
    RemoteUrl(UrlView),
    FsPath(Seq<char>),
    Stdin,
    Text(Seq<char>),
}

impl View for ResolvedInputSource {
    type V = SourceView;

    open spec fn view(&self) -> SourceView {
        match *self {
            ResolvedInputSource::RemoteUrl(url) => SourceView::RemoteUrl(url@),
            ResolvedInputSource::FsPath(path) => SourceView::FsPath(path@),
            ResolvedInputSource::Stdin => SourceView::Stdin,
            ResolvedInputSource::Text(text) => SourceView::Text(text@),
        }
    }
}

/// The place of a raw link in its document. Lines and columns count from 1.
#[derive(Debug, Clone, Copy, PartialEq, Eq)]
pub struct RawUriSpan {
    /// The line of the link.
    pub line: usize,
    /// The column of the link, where it is known.
    pub column: Option<usize>,
}

/// A link as it was found in a document, before it is resolved.
#[derive(Debug, PartialEq, Eq)]
pub struct RawUri {
    /// The text of the link, verbatim.
    pub text: String,
    /// The name of the element that held the link, such as `a` or `img`.
    pub element: Option<String>,
    /// The name of the attribute that held the link, such as `href`.
    pub attribute: Option<String>,
    /// Where the link stands in the document.
    pub span: RawUriSpan,
}

impl Clone for Base {
    fn clone(&self) -> (r: Self)
        ensures
            r@ == self@,
    {
        match self {
            Base::Local(path) => Base::Local(path.clone()),
            Base::Remote(url) => Base::Remote(url.clone()),
        }
    }
}

impl Clone for ResolvedInputSource {
    fn clone(&self) -> (r: Self)
        ensures
            r@ == self@,
    {
        match self {
            ResolvedInputSource::RemoteUrl(url) => ResolvedInputSource::RemoteUrl(url.clone()),
            ResolvedInputSource::FsPath(path) => ResolvedInputSource::FsPath(path.clone()),
            ResolvedInputSource::Stdin => ResolvedInputSource::Stdin,
            ResolvedInputSource::Text(text) => ResolvedInputSource::Text(text.clone()),
        }
    }
}

impl Clone for RawUri {
    fn clone(&self) -> (r: Self)
        ensures
            r == *self,
    {
        RawUri {
            text: self.text.clone(),
            element: match &self.element {
                Some(e) => Some(e.clone()),
                None => None,
            },
            attribute: match &self.attribute {
                Some(a) => Some(a.clone()),
                None => None,
            },
            span: self.span,
        }
    }
}

/// What a declared base is, given as text: the URL that the text parses
/// to, unless nothing can be joined onto it; a local path, where the text is
/// no URL.
pub open spec fn base_of(value: Seq<char>) -> Result<BaseView, ErrorView> {
    match url_parse(value) {
        Ok(u) => if u.cannot_be_a_base {
            Err(ErrorView::InvalidBase(value, CANNOT_BE_A_BASE@))
        } else {
            Ok(BaseView::Remote(u))
        },
        Err(_) => Ok(BaseView::Local(value)),
    }
}

/// What `url::Url::from_file_path` makes of `path` on the platform that the
/// library is built for: the serialization of the `file:` URL, or nothing
/// where the path is not absolute.
pub uninterp spec fn path_file_url(path: Seq<char>) -> Option<Seq<char>>;

/// What `url::Url::from_directory_path` makes of `path` on the platform
/// that the library is built for: the serialization of the `file:` URL of
/// the directory, or nothing where the path is not absolute.
pub uninterp spec fn path_directory_url(path: Seq<char>) -> Option<Seq<char>>;

/// The URL that is read back from the serialization made of `path`: the
/// `file:` URL that it parses to. A path that no serialization was made of,
/// and a serialization that is not read back as a `file:` URL, give
/// `InvalidBase` with the path and the reason.
pub open spec fn read_back(path: Seq<char>, made: Option<Seq<char>>) -> Result<UrlView, ErrorView> {
    match made {
        None => Err(ErrorView::InvalidBase(path, NOT_ABSOLUTE@)),
        Some(text) => match url_parse(text) {
            Ok(u) => if u.scheme == "file"@ {
                Ok(u)
            } else {
                Err(ErrorView::InvalidBase(path, UNREADABLE@))
            },
            Err(_) => Err(ErrorView::InvalidBase(path, UNREADABLE@)),
        },
    }
}

/// The `file:` URL of the file at `path`.
pub open spec fn file_url_of(path: Seq<char>) -> Result<UrlView, ErrorView> {
    read_back(path, path_file_url(path))
}

/// The `file:` URL of the directory at `path`.
pub open spec fn directory_url_of(path: Seq<char>) -> Result<UrlView, ErrorView> {
    read_back(path, path_directory_url(path))
}

/// The URL of a base: the URL of a remote base, unless nothing can be joined
/// onto it; the URL of the directory of a local base.
pub open spec fn base_url_of(base: BaseView) -> Result<UrlView, ErrorView> {
    match base {
        BaseView::Remote(u) => if u.cannot_be_a_base {
            Err(ErrorView::InvalidBase(u.text, CANNOT_BE_A_BASE@))
        } else {
            Ok(u)
        },
        BaseView::Local(path) => directory_url_of(path),
    }
}

/// The URL of a source: the URL of a fetched page, the URL of the file of a
/// path, and none for the standard input and for plain text.
pub open spec fn source_url_of(source: SourceView) -> Result<Option<UrlView>, ErrorView> {
    match source {
        SourceView::RemoteUrl(u) => Ok(Some(u)),
        SourceView::FsPath(path) => match file_url_of(path) {
            Ok(u) => Ok(Some(u)),
            Err(e) => Err(e),
        },
        SourceView::Stdin => Ok(None),
        SourceView::Text(_) => Ok(None),
    }
}

/// The view of a conversion's result.
pub open spec fn url_result_view(r: Result<Url, ErrorKind>) -> Result<UrlView, ErrorView> {
    match r {
        Ok(u) => Ok(u@),
        Err(e) => Err(e@),
    }
}

/// The view of what a source gave for its URL.
pub open spec fn source_result_view(r: Result<Option<Url>, ErrorKind>) -> Result<
    Option<UrlView>,
    ErrorView,
> {
    match r {
        Ok(Some(u)) => Ok(Some(u@)),
        Ok(None) => Ok(None),
        Err(e) => Err(e@),
    }
}

/// Calls `url::Url::from_file_path` and hands out the serialization of the
/// URL. The contract claims only that the outcome depends on the path
/// alone.
#[verifier::external_body]
fn file_url_outside(path: &str) -> (r: Result<String, ()>)
    ensures
        match r {
            Ok(s) => path_file_url(path@) == Some(s@),
            Err(_) => path_file_url(path@) is None,
        },
{
    ::url::Url::from_file_path(path).map(String::from)
}

/// Calls `url::Url::from_directory_path` and hands out the serialization of
/// the URL. The contract claims only that the outcome depends on the path
/// alone.
#[verifier::external_body]
fn directory_url_outside(path: &str) -> (r: Result<String, ()>)
    ensures
        match r {
            Ok(s) => path_directory_url(path@) == Some(s@),
            Err(_) => path_directory_url(path@) is None,
        },
{
    ::url::Url::from_directory_path(path).map(String::from)
}

/// Reads back the URL that was made of `path`, and takes nothing but a
/// `file:` URL for it.
pub fn read_path_url(path: &str, made: Result<String, ()>) -> (r: Result<Url, ErrorKind>)
    ensures
        url_result_view(r) == read_back(
            path@,
            match made {
                Ok(text) => Some(text@),
                Err(_) => None,
            },
        ),
        r matches Ok(u) ==> u@.scheme == "file"@,
{
    match made {
        Ok(text) => match Url::parse(text.as_str()) {
            Ok(u) => {
                if u.is_file() {
                    Ok(u)
                } else {
                    Err(ErrorKind::InvalidBase(path.to_owned(), UNREADABLE.to_owned()))
                }
            },
            Err(_) => Err(ErrorKind::InvalidBase(path.to_owned(), UNREADABLE.to_owned())),
        },
        Err(_) => Err(ErrorKind::InvalidBase(path.to_owned(), NOT_ABSOLUTE.to_owned())),
    }
}

/// The `file:` URL of a directory: its path ends in a slash, so that links
/// are joined below the directory.
///
/// # Errors
///
/// `InvalidBase` with the path, if the path is not absolute.
pub fn directory_url(path: &str) -> (r: Result<Url, ErrorKind>)
    ensures
        url_result_view(r) == directory_url_of(path@),
        r matches Ok(u) ==> u@.scheme == "file"@,
{
    read_path_url(path, directory_url_outside(path))
}

/// The `file:` URL of a file.
///
/// # Errors
///
/// `InvalidBase` with the path, if the path is not absolute.
pub fn file_url(path: &str) -> (r: Result<Url, ErrorKind>)
    ensures
        url_result_view(r) == file_url_of(path@),
        r matches Ok(u) ==> u@.scheme == "file"@,
{
    read_path_url(path, file_url_outside(path))
}

impl Base {
    /// Reads a base from text: a URL where the text parses as one, else a
    /// local path.
    ///
    /// # Errors
    ///
    /// `InvalidBase` for a URL that nothing can be joined onto, such as a
    /// `data:` URL.
    pub fn try_from(value: &str) -> (r: Result<Base, ErrorKind>)
        ensures
            match r {
                Ok(b) => base_of(value@) == Ok::<BaseView, ErrorView>(b@),
                Err(e) => base_of(value@) == Err::<BaseView, ErrorView>(e@),
            },
    {
        match Url::parse(value) {
            Ok(url) => {
                if url.cannot_be_a_base() {
                    Err(ErrorKind::InvalidBase(value.to_owned(), CANNOT_BE_A_BASE.to_owned()))
                } else {
                    Ok(Base::Remote(url))
                }
            },
            Err(_) => Ok(Base::Local(value.to_owned())),
        }
    }

    /// The URL of this base. A local path becomes the `file:` URL of a
    /// directory.
    ///
    /// # Errors
    ///
    /// `InvalidBase`, if the base is a URL that nothing can be joined onto,
    /// such as a `data:` URL, or a path that is not absolute.
    pub fn to_url(&self) -> (r: Result<Url, ErrorKind>)
        ensures
            url_result_view(r) == base_url_of(self@),
    {
        match self {
            Base::Remote(url) => {
                if url.cannot_be_a_base() {
                    Err(
                        ErrorKind::InvalidBase(
                            url.as_str().to_owned(),
                            CANNOT_BE_A_BASE.to_owned(),
                        ),
                    )
                } else {
                    Ok(url.clone())
                }
            },
            Base::Local(path) => directory_url(path.as_str()),
        }
    }
}

impl ResolvedInputSource {
    /// The URL of this source, where it has one.
    ///
    /// # Errors
    ///
    /// `InvalidBase` with the path, if the source is a file whose path is
    /// not absolute.
    pub fn to_url(&self) -> (r: Result<Option<Url>, ErrorKind>)
        ensures
            source_result_view(r) == source_url_of(self@),
    {
        match self {
            ResolvedInputSource::RemoteUrl(url) => Ok(Some(url.clone())),
            ResolvedInputSource::FsPath(path) => match file_url(path.as_str()) {
                Ok(u) => Ok(Some(u)),
                Err(e) => Err(e),
            },
            ResolvedInputSource::Stdin => Ok(None),
            ResolvedInputSource::Text(_) => Ok(None),
        }
    }
}

} // verus!
