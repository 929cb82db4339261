//! The errors of link resolution.

use vstd::prelude::*;

verus! {

/// Why a link or a base could not be turned into a URL.
#[derive(Debug, PartialEq, Eq)]
pub enum ErrorKind {
    /// The text is no valid URL, nor a valid relative reference under the
    /// base that applies. Holds the parser's error and the offending text.
    ParseUrl(::url::ParseError, String),
    /// A declared root directory or base URL cannot be used. Holds the value
    /// and the reason.
    InvalidBase(String, String),
    /// A link that needs a root was met where no root is known. Holds the
    /// text of the link.
    InvalidBaseJoin(String),
}

/// An [`ErrorKind`] as mathematical values.
pub enum ErrorView {
    ParseUrl(::url::ParseError, Seq<char>),
    InvalidBase(Seq<char>, Seq<char>),
    InvalidBaseJoin(Seq<char>),
}

impl View for ErrorKind {
    type V = ErrorView;

    open spec fn view(&self) -> ErrorView {
        match *self {
            ErrorKind::ParseUrl(e, text) => ErrorView::ParseUrl(e, text@),
            ErrorKind::InvalidBase(value, reason) => ErrorView::InvalidBase(value@, reason@),
            ErrorKind::InvalidBaseJoin(text) => ErrorView::InvalidBaseJoin(text@),
        }
    }
}

impl Clone for ErrorKind {
    fn clone(&self) -> (r: Self)
        ensures
            r@ == self@,
    {
        match self {
            ErrorKind::ParseUrl(e, text) => ErrorKind::ParseUrl(*e, text.clone()),
            ErrorKind::InvalidBase(value, reason) => ErrorKind::InvalidBase(
                value.clone(),
                reason.clone(),
            ),
            ErrorKind::InvalidBaseJoin(text) => ErrorKind::InvalidBaseJoin(text.clone()),
        }
    }
}

} // verus!
