//! Parses and resolves raw links into fully-qualified URLs by applying the
//! base of their source and the mappings between root directory and base
//! URL.

use vstd::prelude::*;
use vstd::string::*;
use crate::error::{ErrorKind, ErrorView};
use crate::input::{
    base_url_of, directory_url, directory_url_of, source_result_view, source_url_of, Base,
    BaseView, RawUri, ResolvedInputSource, SourceView,
};
use crate::relative::Uri;
use crate::rooted::{relative_to, rooted_join, strs_view};
use crate::text::{is_root_relative_link, root_relative};
use crate::url_mapping::{
    is_first_offender, lookup_new, lookup_old, nested, offends, pairs_view, refusal,
    well_formed, UrlMappings, NESTED_REASON,
};
use crate::url_model::{
    is_popped, joined, url_parse, without_trailing_slash, Url, UrlView,
};

verus! {

/// A base as mathematical values: the origin, the subpath of the source
/// below the origin, and whether the base is well-founded.
pub type BaseParts = (UrlView, Seq<char>, bool);

/// Information used for resolving relative URLs within a particular input
/// source. There is one `SourceBaseInfo` for each source, made by
/// [`SourceBaseInfo::from_source`] or [`prepare_source_base_info`] before
/// the links of the source are read, and not changed after.
///
/// A `SourceBaseInfo` may or may not have a base. Without one, as for the
/// standard input, only fully-qualified links can be resolved. A base is
/// made of an origin, the subpath of the source below the origin, and a
/// flag that says whether the base is *well-founded*: whether links that are
/// relative to the root (`/this`) may be resolved against the origin. The
/// base of a local file whose root directory is not known is not
/// well-founded: links can be followed from the file, but nothing says where
/// the root is.
#[derive(Debug, PartialEq, Eq)]
pub struct SourceBaseInfo {
    /// Tuple of `origin`, `subpath`, `well_founded`.
    base: Option<(Url, String, bool)>,
    /// The mappings between root directory and base URL.
    mappings: UrlMappings,
}

/// A [`SourceBaseInfo`] as mathematical values.
pub struct InfoView {
    pub base: Option<BaseParts>,
    pub mappings: Seq<(UrlView, UrlView)>,
}

/// The view of a base.
pub open spec fn base_view(base: Option<(Url, String, bool)>) -> Option<BaseParts> {
    match base {
        Some((origin, subpath, well_founded)) => Some((origin@, subpath@, well_founded)),
        None => None,
    }
}

impl View for SourceBaseInfo {
    type V = InfoView;

    closed spec fn view(&self) -> InfoView {
        InfoView { base: base_view(self.base), mappings: self.mappings@ }
    }
}

/// The base that a URL has of its own: the origin is the URL with the path
/// `/`, the subpath leads from the origin to the URL, and the base is
/// well-founded unless the scheme is `file`. A URL that nothing can be
/// joined onto has none.
pub open spec fn inferred_base(u: UrlView) -> Option<BaseParts> {
    match joined(u.text, seq!['/']) {
        Err(_) => None,
        Ok(origin) => match relative_to(u, origin) {
            Some(subpath) => Some((origin, subpath, u.scheme != "file"@)),
            None => None,
        },
    }
}

/// How much a base can resolve: nothing without a base, links relative to
/// the document with a base, links relative to the root as well with a
/// well-founded base.
pub open spec fn rank(base: Option<BaseParts>) -> int {
    match base {
        None => 0,
        Some((_, _, well_founded)) => if well_founded {
            2
        } else {
            1
        },
    }
}

/// The base that can resolve more; `own` where neither can.
pub open spec fn better(own: Option<BaseParts>, fallback: Option<BaseParts>) -> Option<BaseParts> {
    if rank(fallback) > rank(own) {
        fallback
    } else {
        own
    }
}

/// The base of a source with the URL `source`, if it has one.
///
/// A source whose URL lies within the old URL of a mapping, a root
/// directory, takes the new URL of the mapping as its origin, and its base
/// is well-founded. Any other URL has the base that it has of its own. The
/// fallback, which is well-founded, takes the place of a base that is
/// missing or not well-founded.
pub open spec fn derived_base(
    source: Option<UrlView>,
    mappings: Seq<(UrlView, UrlView)>,
    fallback: Option<UrlView>,
) -> Option<BaseParts> {
    let own = match source {
        None => None,
        Some(u) => match lookup_old(mappings, u) {
            Some((target, subpath)) => Some((target, subpath, true)),
            None => inferred_base(u),
        },
    };
    let fallback = match fallback {
        Some(f) => Some((f, Seq::<char>::empty(), true)),
        None => None,
    };
    better(own, fallback)
}

/// What link text resolves to under a base.
///
/// Text that parses as a URL is that URL. Other text that is relative to the
/// root is refused with `InvalidBaseJoin` where there is no base or the base
/// is not well-founded. Without a base, any other text fails with the
/// parser's error. With a base, the subpath and the text are joined onto the
/// origin by the rooted join.
pub open spec fn resolved(base: Option<BaseParts>, text: Seq<char>) -> Result<UrlView, ErrorView> {
    match url_parse(text) {
        Ok(u) => Ok(u),
        Err(e) => match base {
            None => if root_relative(text) {
                Err(ErrorView::InvalidBaseJoin(text))
            } else {
                Err(ErrorView::ParseUrl(e, text))
            },
            Some((origin, subpath, well_founded)) => if root_relative(text) && !well_founded {
                Err(ErrorView::InvalidBaseJoin(text))
            } else {
                rooted_join(origin, seq![subpath, text])
            },
        },
    }
}

/// A resolved URL after it is moved by the mappings: a URL within the new
/// URL of a mapping becomes the URL with the same subpath below the old
/// URL, where that can be joined.
pub open spec fn moved(url: UrlView, mappings: Seq<(UrlView, UrlView)>) -> UrlView {
    match lookup_new(mappings, url) {
        Some((target, subpath)) => match joined(target.text, subpath) {
            Ok(v) => v,
            Err(_) => url,
        },
        None => url,
    }
}

/// A resolved URL after the mappings are applied to it: it is moved by the
/// mappings, and a `file:` URL then loses the trailing slash of its path.
pub open spec fn rewritten(url: UrlView, mappings: Seq<(UrlView, UrlView)>) -> UrlView {
    let mapped = moved(url, mappings);
    if mapped.scheme == "file"@ {
        without_trailing_slash(mapped)
    } else {
        mapped
    }
}

/// What link text comes to under a base and mappings.
pub open spec fn resolved_uri(
    base: Option<BaseParts>,
    mappings: Seq<(UrlView, UrlView)>,
    text: Seq<char>,
) -> Result<UrlView, ErrorView> {
    match resolved(base, text) {
        Ok(u) => Ok(rewritten(u, mappings)),
        Err(e) => Err(e),
    }
}

/// The error for a base that is nested with its root directory.
pub open spec fn nested_base(root_and_base: (UrlView, UrlView)) -> ErrorView {
    ErrorView::InvalidBase(root_and_base.1.text, NESTED_REASON@ + root_and_base.0.text)
}

/// The base information and the mappings of a source, from the URLs of its
/// root directory and base, of the fallback base and of the source itself.
///
/// The root directory and the base make the one mapping, the root
/// directory as the old URL and the base as the new one; without them there
/// is none. A base that is nested with the root directory is refused with
/// `InvalidBase`, which holds the base and a reason that names the root
/// directory. Then a source that failed to give its URL fails.
pub open spec fn assembled(
    root_and_base: Option<(UrlView, UrlView)>,
    fallback: Option<UrlView>,
    source: Result<Option<UrlView>, ErrorView>,
) -> Result<(InfoView, Seq<(UrlView, UrlView)>), ErrorView> {
    let mappings = match root_and_base {
        Some(pair) => seq![pair],
        None => Seq::empty(),
    };
    let refused = match root_and_base {
        Some((root, base)) => nested(root, base),
        None => false,
    };
    if refused {
        Err(nested_base(root_and_base->0))
    } else {
        match source {
            Err(e) => Err(e),
            Ok(url) => Ok(
                (
                    InfoView { base: derived_base(url, mappings, fallback), mappings },
                    mappings,
                ),
            ),
        }
    }
}

/// [`assembled`], from what the conversions of the arguments to URLs gave:
/// the first conversion that failed, of the root directory, of the base and
/// of the fallback base in this order, ends it with its error.
pub open spec fn prepared(
    root_and_base: Option<(Result<UrlView, ErrorView>, Result<UrlView, ErrorView>)>,
    fallback: Option<Result<UrlView, ErrorView>>,
    source: Result<Option<UrlView>, ErrorView>,
) -> Result<(InfoView, Seq<(UrlView, UrlView)>), ErrorView> {
    match root_and_base {
        Some((Err(e), _)) => Err(e),
        Some((Ok(_), Err(e))) => Err(e),
        _ => match fallback {
            Some(Err(e)) => Err(e),
            _ => assembled(
                match root_and_base {
                    Some((Ok(root), Ok(base))) => Some((root, base)),
                    _ => None,
                },
                match fallback {
                    Some(Ok(f)) => Some(f),
                    _ => None,
                },
                source,
            ),
        },
    }
}

/// The base information and the mappings of a source, from the arguments
/// as they are given: each is converted to its URL, and [`prepared`] does
/// the rest. Without a declared base, the root directory is the base.
pub open spec fn prepared_for(
    source: SourceView,
    root_and_base: Option<(Seq<char>, Option<BaseView>)>,
    fallback: Option<BaseView>,
) -> Result<(InfoView, Seq<(UrlView, UrlView)>), ErrorView> {
    prepared(
        match root_and_base {
            Some((path, declared)) => Some(
                (
                    directory_url_of(path),
                    match declared {
                        Some(base) => base_url_of(base),
                        None => directory_url_of(path),
                    },
                ),
            ),
            None => None,
        },
        match fallback {
            Some(base) => Some(base_url_of(base)),
            None => None,
        },
        source_url_of(source),
    )
}

/// The view of an optional URL.
pub open spec fn opt_url_view(u: Option<Url>) -> Option<UrlView> {
    match u {
        Some(u) => Some(u@),
        None => None,
    }
}

/// The view of an optional pair of URLs.
pub open spec fn opt_pair_view(pair: Option<(Url, Url)>) -> Option<(UrlView, UrlView)> {
    match pair {
        Some((root, base)) => Some((root@, base@)),
        None => None,
    }
}

/// The view of a preparation's result.
pub open spec fn prepared_view(r: Result<(SourceBaseInfo, UrlMappings), ErrorKind>) -> Result<
    (InfoView, Seq<(UrlView, UrlView)>),
    ErrorView,
> {
    match r {
        Ok((info, mappings)) => Ok((info@, mappings@)),
        Err(e) => Err(e@),
    }
}

/// In a list of one pair, the pair breaks the rule only by its own sides.
pub proof fn lemma_single_pair(pair: (UrlView, UrlView))
    ensures
        offends(seq![pair], 0) == nested(pair.0, pair.1),
{
}

impl Clone for SourceBaseInfo {
    fn clone(&self) -> (r: Self)
        ensures
            r@ == self@,
    {
        let base = match &self.base {
            Some((origin, subpath, well_founded)) => Some(
                (origin.clone(), subpath.clone(), *well_founded),
            ),
            None => None,
        };
        SourceBaseInfo { base, mappings: self.mappings.clone() }
    }
}

impl SourceBaseInfo {
    /// Constructs a `SourceBaseInfo` without a base: it can resolve no
    /// relative links, and only fully-qualified links will be parsed.
    pub fn no_info() -> (r: Self)
        ensures
            r@.base is None,
            r@.mappings.len() == 0,
    {
        SourceBaseInfo { base: None, mappings: UrlMappings::empty() }
    }

    /// Constructs a `SourceBaseInfo` with a well-founded base made of the
    /// given origin and subpath. It can resolve all kinds of relative links.
    pub fn full_info(origin: Url, path: String) -> (r: Self)
        ensures
            r@.base == Some((origin@, path@, true)),
            r@.mappings.len() == 0,
    {
        SourceBaseInfo {
            base: Some((origin, path, true)),
            mappings: UrlMappings::empty(),
        }
    }

    /// Constructs a `SourceBaseInfo` from a base and a list of mappings.
    ///
    /// # Errors
    ///
    /// Those of [`UrlMappings::new`].
    pub fn new(base: Option<(Url, String, bool)>, mappings: Vec<(Url, Url)>) -> (r:
        Result<SourceBaseInfo, ErrorKind>)
        ensures
            match r {
                Ok(info) => info@.base == base_view(base) && info@.mappings == pairs_view(
                    mappings@,
                ) && well_formed(info@.mappings),
                Err(e) => exists|k: int|
                    #[trigger] is_first_offender(pairs_view(mappings@), k) && e@
                        == refusal(pairs_view(mappings@)[k]),
            },
    {
        match UrlMappings::new(mappings) {
            Ok(mappings) => Ok(SourceBaseInfo { base, mappings }),
            Err(e) => Err(e),
        }
    }

    /// Divides a URL into its origin and the subpath that leads from the
    /// origin to it. The base is well-founded unless the URL is a `file:`
    /// URL, whose root is not known.
    fn infer_default_base(url: &Url) -> (r: Option<(Url, String, bool)>)
        ensures
            base_view(r) == inferred_base(url@),
    {
        proof {
            reveal_strlit("/");
            assert("/"@ =~= seq!['/']);
        }
        let origin = match url.join("/") {
            Ok(origin) => origin,
            Err(_) => {
                return None;
            },
        };
        match url.strictly_relative_to(&origin) {
            Some(subpath) => {
                let well_founded = !url.is_file();
                Some((origin, subpath, well_founded))
            },
            None => None,
        }
    }

    /// Constructs a `SourceBaseInfo` from the URL of a source alone.
    ///
    /// - A URL that cannot be a base yields no base.
    /// - A `file:` URL yields a base that is not well-founded.
    /// - For other URLs, a well-founded base is made of the URL's origin and
    ///   path.
    pub fn from_source_url(url: &Url) -> (r: Self)
        ensures
            r@.base == derived_base(Some(url@), Seq::empty(), None),
            r@.mappings.len() == 0,
    {
        let mappings = UrlMappings::empty();
        let base = Self::derive_base(Some(url), &mappings, None);
        SourceBaseInfo { base, mappings }
    }

    /// The base of a source: see [`derived_base`].
    fn derive_base(source: Option<&Url>, mappings: &UrlMappings, fallback: Option<&Url>) -> (r:
        Option<(Url, String, bool)>)
        ensures
            base_view(r) == derived_base(
                match source {
                    Some(u) => Some(u@),
                    None => None,
                },
                mappings@,
                match fallback {
                    Some(f) => Some(f@),
                    None => None,
                },
            ),
    {
        let own = match source {
            None => None,
            Some(url) => match mappings.map_to_old_url(url) {
                Some((target, subpath)) => Some((target.clone(), subpath, true)),
                None => Self::infer_default_base(url),
            },
        };
        let well_founded = match &own {
            Some((_, _, well_founded)) => *well_founded,
            None => false,
        };
        match fallback {
            Some(f) => {
                if well_founded {
                    own
                } else {
                    Some((f.clone(), String::new(), true))
                }
            },
            None => own,
        }
    }

    /// Whether links that are relative to the root can be resolved.
    pub fn supports_root_relative(&self) -> (r: bool)
        ensures
            r == (rank(self@.base) == 2),
    {
        match &self.base {
            Some((_, _, well_founded)) => *well_founded,
            None => false,
        }
    }

    /// Whether links that are relative to the document can be resolved.
    pub fn supports_locally_relative(&self) -> (r: bool)
        ensures
            r == (rank(self@.base) >= 1),
    {
        self.base.is_some()
    }

    /// The origin, the subpath and the flag of the base, if there is one.
    pub fn base(&self) -> (r: Option<(&Url, &str, bool)>)
        ensures
            match r {
                Some((origin, subpath, well_founded)) => self@.base == Some(
                    (origin@, subpath@, well_founded),
                ),
                None => self@.base is None,
            },
    {
        match &self.base {
            Some((origin, subpath, well_founded)) => Some((origin, subpath.as_str(), *well_founded)),
            None => None,
        }
    }

    /// The mappings between root directory and base URL.
    pub fn mappings(&self) -> (r: &UrlMappings)
        ensures
            r@ == self@.mappings,
    {
        &self.mappings
    }

    /// Returns the `SourceBaseInfo` with the base that has _more
    /// information_ between `self` and the given `fallback`.
    ///
    /// A well-founded base is preferred over one that is not, which is
    /// preferred over none. If both are of the same kind, the base of `self`
    /// is kept. The mappings are those of `self`.
    pub fn or_fallback(self, fallback: Self) -> (r: Self)
        ensures
            r@.base == better(self@.base, fallback@.base),
            r@.mappings == self@.mappings,
    {
        let mine: u8 = if self.supports_root_relative() {
            2
        } else if self.supports_locally_relative() {
            1
        } else {
            0
        };
        let other: u8 = if fallback.supports_root_relative() {
            2
        } else if fallback.supports_locally_relative() {
            1
        } else {
            0
        };
        if other > mine {
            SourceBaseInfo {
                base: fallback.base,
                mappings: self.mappings,
            }
        } else {
            self
        }
    }

    /// Parses the given URL text into a fully-qualified URL, including
    /// resolving relative links if supported by the current
    /// [`SourceBaseInfo`].
    ///
    /// # Errors
    ///
    /// - `InvalidBaseJoin` with the text, if the text is relative to the
    ///   root and there is no well-founded base;
    /// - `ParseUrl` with the parser's error and the text, if the text is
    ///   another relative link and there is no base;
    /// - the error of [`Url::join_rooted`], if the subpath or the text
    ///   cannot be joined onto the origin.
    pub fn parse_url_text(&self, text: &str) -> (r: Result<Url, ErrorKind>)
        ensures
            match r {
                Ok(u) => resolved(self@.base, text@) == Ok::<UrlView, ErrorView>(u@),
                Err(e) => resolved(self@.base, text@) == Err::<UrlView, ErrorView>(e@),
            },
    {
        let e = match Url::parse(text) {
            Ok(url) => {
                return Ok(url);
            },
            Err(e) => e,
        };
        match &self.base {
            None => {
                if is_root_relative_link(text) {
                    Err(ErrorKind::InvalidBaseJoin(text.to_owned()))
                } else {
                    Err(ErrorKind::ParseUrl(e, text.to_owned()))
                }
            },
            Some((origin, subpath, well_founded)) => {
                if is_root_relative_link(text) && !*well_founded {
                    Err(ErrorKind::InvalidBaseJoin(text.to_owned()))
                } else {
                    let subpaths = [subpath.as_str(), text];
                    assert(strs_view(subpaths@) =~= seq![subpath@, text@]);
                    origin.join_rooted(subpaths.as_slice())
                }
            },
        }
    }

    /// Constructs a `SourceBaseInfo` from the given input source, root and
    /// base pair, and fallback base.
    ///
    /// # Arguments
    ///
    /// * `source` - The input source which contains the links we want to
    ///   resolve.
    /// * `root_and_base` - An optional pair of root directory and base URL.
    ///   A base URL can only be given with a root directory. If the base URL
    ///   is omitted but the root directory is given, the base URL defaults
    ///   to the root directory.
    /// * `fallback_base` - A fallback base URL to use where no other
    ///   well-founded base can be derived. If it is applied, the fallback
    ///   base is considered to be a well-founded base.
    ///
    /// # Root and base
    ///
    /// If the URL of the source lies within the root directory, the base is
    /// made by taking that URL and replacing the root directory with the
    /// base URL. In this way, links from local files are resolved *as if*
    /// the files were hosted at the base URL. Later, in
    /// [`SourceBaseInfo::parse_uri`], links which come to lie within the
    /// base URL are reflected back to local files within the root
    /// directory.
    ///
    /// # Errors
    ///
    /// This function fails if an argument cannot be converted to a URL, or
    /// if root directory and base URL are nested.
    pub fn from_source(
        source: &ResolvedInputSource,
        root_and_base: Option<(&str, Option<&Base>)>,
        fallback_base: Option<&Base>,
    ) -> (r: Result<SourceBaseInfo, ErrorKind>)
        ensures
            match r {
                Ok(info) => prepared_for(
                    source@,
                    root_and_base_view(root_and_base),
                    fallback_view(fallback_base),
                ) == Ok::<(InfoView, Seq<(UrlView, UrlView)>), ErrorView>(
                    (info@, info@.mappings),
                ),
                Err(e) => prepared_for(
                    source@,
                    root_and_base_view(root_and_base),
                    fallback_view(fallback_base),
                ) == Err::<(InfoView, Seq<(UrlView, UrlView)>), ErrorView>(e@),
            },
    {
        match prepare_source_base_info(source, root_and_base, fallback_base) {
            Ok((info, _)) => Ok(info),
            Err(e) => Err(e),
        }
    }

    /// Resolves a raw link of the source into a fully-qualified URL, with
    /// the base and the mappings of this `SourceBaseInfo`.
    pub fn parse_uri(&self, raw_uri: &RawUri) -> (r: Result<Uri, ErrorKind>)
        ensures
            match r {
                Ok(uri) => resolved_uri(self@.base, self@.mappings, raw_uri.text@) == Ok::<
                    UrlView,
                    ErrorView,
                >(uri.url@),
                Err(e) => resolved_uri(self@.base, self@.mappings, raw_uri.text@) == Err::<
                    UrlView,
                    ErrorView,
                >(e@),
            },
    {
        parse_url_with_base_info(self, &self.mappings, raw_uri)
    }
}

/// The view of an optional pair of root directory and base.
pub open spec fn root_and_base_view(root_and_base: Option<(&str, Option<&Base>)>) -> Option<
    (Seq<char>, Option<BaseView>),
> {
    match root_and_base {
        Some((root, Some(base))) => Some((root@, Some(base@))),
        Some((root, None)) => Some((root@, None)),
        None => None,
    }
}

/// The view of an optional fallback base.
pub open spec fn fallback_view(fallback: Option<&Base>) -> Option<BaseView> {
    match fallback {
        Some(base) => Some(base@),
        None => None,
    }
}

/// Applies the mappings to a resolved URL: a URL within the new URL of a
/// mapping is moved below the old URL, and a `file:` URL loses the trailing
/// slash of its path.
pub fn rewrite(url: Url, mappings: &UrlMappings) -> (r: Url)
    ensures
        r@ == rewritten(url@, mappings@),
        r@ == moved(url@, mappings@) || (moved(url@, mappings@).scheme == "file"@ && is_popped(
            r@,
            moved(url@, mappings@),
        )),
{
    let moved = match mappings.map_to_new_url(&url) {
        Some((target, subpath)) => match target.join(subpath.as_str()) {
            Ok(v) => Some(v),
            Err(_) => None,
        },
        None => None,
    };
    let mapped = match moved {
        Some(v) => v,
        None => url,
    };
    // A `file:` URL of a directory ends in a slash; the URL that is handed
    // out does not.
    if mapped.is_file() {
        mapped.pop_if_empty()
    } else {
        mapped
    }
}

/// Builds the base information and the mappings of a source from URLs: the
/// deciding half of [`prepare_source_base_info`], after its arguments are
/// converted.
pub fn assemble(
    root_and_base: Option<(Url, Url)>,
    fallback: Option<Url>,
    source: Result<Option<Url>, ErrorKind>,
) -> (r: Result<(SourceBaseInfo, UrlMappings), ErrorKind>)
    ensures
        prepared_view(r) == assembled(
            opt_pair_view(root_and_base),
            opt_url_view(fallback),
            source_result_view(source),
        ),
{
    let mut pairs: Vec<(Url, Url)> = Vec::new();
    let ghost pair_views: Seq<(UrlView, UrlView)> = match opt_pair_view(root_and_base) {
        Some(pair) => seq![pair],
        None => Seq::empty(),
    };
    let mut refused: Option<ErrorKind> = None;
    match root_and_base {
        Some((root, base)) => {
            // The pair is stored root directory first. The error speaks of
            // the base and names the root directory.
            refused = Some(
                ErrorKind::InvalidBase(
                    base.as_str().to_owned(),
                    String::from_str(NESTED_REASON).concat(root.as_str()),
                ),
            );
            pairs.push((root, base));
        },
        None => {},
    }
    assert(pairs_view(pairs@) =~= pair_views);
    proof {
        if root_and_base is Some {
            lemma_single_pair(pair_views[0]);
        }
    }
    let mappings = match UrlMappings::new(pairs) {
        Ok(mappings) => mappings,
        Err(e) => {
            return match refused {
                Some(nested) => Err(nested),
                None => Err(e),
            };
        },
    };
    let source_url = match source {
        Ok(url) => url,
        Err(e) => {
            return Err(e);
        },
    };
    let base = SourceBaseInfo::derive_base(source_url.as_ref(), &mappings, fallback.as_ref());
    let info = SourceBaseInfo { base, mappings: mappings.clone() };
    Ok((info, mappings))
}

/// Builds the base information and the mappings for the links of one
/// source.
///
/// The root directory and the base are converted to URLs first, then the
/// fallback base, then the source. If a root directory is given but no base,
/// the root directory is the base as well. What follows is decided by
/// [`assemble`].
///
/// # Errors
///
/// The error of the first conversion that fails, or `InvalidBase` if the
/// URLs of root directory and base are nested.
pub fn prepare_source_base_info(
    source: &ResolvedInputSource,
    root_and_base: Option<(&str, Option<&Base>)>,
    fallback_base: Option<&Base>,
) -> (r: Result<(SourceBaseInfo, UrlMappings), ErrorKind>)
    ensures
        prepared_view(r) == prepared_for(
            source@,
            root_and_base_view(root_and_base),
            fallback_view(fallback_base),
        ),
{
    let pair: Option<(Url, Url)> = match root_and_base {
        Some((path, declared)) => {
            let root = match directory_url(path) {
                Ok(root) => root,
                Err(e) => {
                    return Err(e);
                },
            };
            // if root is specified but not base, use root dir as the base as well.
            let base = match declared {
                Some(b) => match b.to_url() {
                    Ok(base) => base,
                    Err(e) => {
                        return Err(e);
                    },
                },
                None => root.clone(),
            };
            Some((root, base))
        },
        None => None,
    };
    let fallback: Option<Url> = match fallback_base {
        Some(b) => match b.to_url() {
            Ok(f) => Some(f),
            Err(e) => {
                return Err(e);
            },
        },
        None => None,
    };
    assemble(pair, fallback, source.to_url())
}

/// Resolves a raw link into a fully-qualified URL: the text of the link is
/// resolved under the base of its source, and the mappings are applied to
/// the outcome.
pub fn parse_url_with_base_info(
    base_info: &SourceBaseInfo,
    mappings: &UrlMappings,
    raw_uri: &RawUri,
) -> (r: Result<Uri, ErrorKind>)
    ensures
        match r {
            Ok(uri) => resolved_uri(base_info@.base, mappings@, raw_uri.text@) == Ok::<
                UrlView,
                ErrorView,
            >(uri.url@),
            Err(e) => resolved_uri(base_info@.base, mappings@, raw_uri.text@) == Err::<
                UrlView,
                ErrorView,
            >(e@),
        },
{
    match base_info.parse_url_text(raw_uri.text.as_str()) {
        Ok(url) => Ok(Uri { url: rewrite(url, mappings) }),
        Err(e) => Err(e),
    }
}

} // verus!
