//! What holds of the resolution as a whole, proved from the definitions of
//! its parts.

use vstd::prelude::*;
use crate::base_info::{derived_base, prepared_for, resolved, BaseParts};
use crate::error::ErrorView;
use crate::input::{directory_url_of, file_url_of, SourceView};
use crate::rooted::{
    confined, has_gap, leads_to, leads_up, rebased, relative_to, rooted_join, same_origin,
    stripped, within,
};
use crate::text::root_relative;
use crate::url_mapping::{lookup_new, lookup_old};
use crate::url_model::{joined, url_parse, UrlView};

verus! {

/// Confinement: whatever the subpaths are, and however many `..` they hold,
/// the rooted join onto a `file:` base yields a URL within the base, or the
/// base itself.
pub proof fn lemma_confinement(base: UrlView, subpaths: Seq<Seq<char>>)
    requires
        base.scheme == "file"@,
    ensures
        rooted_join(base, subpaths) matches Ok(u) ==> within(u, base) || u == base,
{
}

/// A URL within a base has the scheme, the host and the port of the base,
/// and its directory is the directory of the base or lies below it.
pub proof fn lemma_within_shares_origin(u: UrlView, base: UrlView)
    requires
        within(u, base),
    ensures
        u.scheme == base.scheme,
        u.host == base.host,
        u.port == base.port,
        forall|i: int|
            0 <= i < base.segments->0.len() - 1 ==> (#[trigger] u.segments->0[i])
                == base.segments->0[i],
{
    let bs = base.segments->0.drop_last();
    let us = u.segments->0.drop_last();
    assert forall|i: int| 0 <= i < base.segments->0.len() - 1 implies (#[trigger] u.segments->0[i])
        == base.segments->0[i] by {
        assert(us.subrange(0, bs.len() as int)[i] == bs[i]);
    }
}

/// The inverse law: the relative text of `u` below `prefix`, joined onto
/// `prefix`, gives `u` again. It never begins with a slash or by going up,
/// and `u` lies within `prefix`.
pub proof fn lemma_inverse(u: UrlView, prefix: UrlView, text: Seq<char>)
    requires
        relative_to(u, prefix) == Some(text),
    ensures
        within(u, prefix),
        !leads_up(text),
        !(text.len() > 0 && text[0] == '/'),
        joined(prefix.text, text) == Ok::<UrlView, ::url::ParseError>(u),
{
}

/// What is stripped of a prefix is relative to it: the two URLs have the
/// same scheme, host and port, the text neither begins with a slash nor by
/// going up, and, joined onto the prefix, it gives the URL again, unless the
/// path of the URL has an empty segment before its last.
pub proof fn lemma_stripped_is_relative(u: UrlView, prefix: UrlView, text: Seq<char>)
    requires
        stripped(u, prefix) == Some(text),
    ensures
        same_origin(u, prefix),
        !leads_up(text),
        !(text.len() > 0 && text[0] == '/'),
        has_gap(u.segments->0) || joined(prefix.text, text) == Ok::<UrlView, ::url::ParseError>(u),
{
}

/// A mapping leads from its local side to its remote side: a URL `u` within
/// `local` is matched, and the subpath that comes with `remote` is the one
/// that leads from `local` to `u`. Joined onto `remote`, it gives the place
/// of `u` below `remote`.
pub proof fn lemma_mapping_to_new(remote: UrlView, local: UrlView, u: UrlView, subpath: Seq<char>)
    requires
        relative_to(u, local) == Some(subpath),
    ensures
        lookup_new(seq![(remote, local)], u) == Some((remote, subpath)),
        leads_to(local, subpath, u),
{
}

/// A mapping leads from its remote side to its local side in the same way.
pub proof fn lemma_mapping_to_old(remote: UrlView, local: UrlView, v: UrlView, subpath: Seq<char>)
    requires
        relative_to(v, remote) == Some(subpath),
    ensures
        lookup_old(seq![(remote, local)], v) == Some((local, subpath)),
        leads_to(remote, subpath, v),
{
}

/// The round trip through a mapping: a URL `u` within `local` is moved
/// below `remote`; where the way back finds the same subpath there, it
/// arrives at `u`.
pub proof fn lemma_round_trip(remote: UrlView, local: UrlView, u: UrlView, subpath: Seq<char>)
    requires
        lookup_new(seq![(remote, local)], u) == Some((remote, subpath)),
        joined(remote.text, subpath) is Ok,
        relative_to(joined(remote.text, subpath)->Ok_0, remote) == Some(subpath),
    ensures
        lookup_old(seq![(remote, local)], joined(remote.text, subpath)->Ok_0) == Some(
            (local, subpath),
        ),
        joined(local.text, subpath) == Ok::<UrlView, ::url::ParseError>(u),
{
    assert(lookup_new(seq![(remote, local)].drop_first(), u) is None);
}

/// Not well-founded: the base of a `file:` source that has neither a
/// mapping nor a fallback refuses every link that is relative to the root
/// and no URL of its own, with `InvalidBaseJoin`.
pub proof fn lemma_bare_file_source_refuses_root(source: UrlView, text: Seq<char>)
    requires
        source.scheme == "file"@,
        root_relative(text),
        url_parse(text) is Err,
    ensures
        resolved(derived_base(Some(source), Seq::empty(), None), text) == Err::<UrlView, ErrorView>(
            ErrorView::InvalidBaseJoin(text),
        ),
{
}

/// Well-founded: a source within a declared root directory has a
/// well-founded base, whose origin is the base URL that was declared with
/// the root directory, or the root directory itself where none was. A link
/// that is relative to the root and no URL of its own is resolved by the
/// rooted join onto that origin, and what it resolves to lies within a
/// `file:` origin.
pub proof fn lemma_covered_source_resolves_root(
    source: UrlView,
    root: UrlView,
    base: UrlView,
    subpath: Seq<char>,
    fallback: Option<UrlView>,
    text: Seq<char>,
)
    requires
        relative_to(source, root) == Some(subpath),
        url_parse(text) is Err,
    ensures
        derived_base(Some(source), seq![(root, base)], fallback) == Some((base, subpath, true)),
        resolved(derived_base(Some(source), seq![(root, base)], fallback), text) == rooted_join(
            base,
            seq![subpath, text],
        ),
        base.scheme == "file"@ ==> (rooted_join(base, seq![subpath, text]) matches Ok(u) ==> within(
            u,
            base,
        ) || u == base),
{
}

/// A file that is prepared without a root directory and without a fallback
/// refuses every link that is relative to the root and no URL of its own,
/// with `InvalidBaseJoin`. The preparation fails only where the path of the
/// file has no URL.
pub proof fn lemma_bare_file_refuses_root(path: Seq<char>, text: Seq<char>)
    requires
        root_relative(text),
        url_parse(text) is Err,
    ensures
        match prepared_for(SourceView::FsPath(path), None, None) {
            Ok((info, mappings)) => {
                &&& file_url_of(path) is Ok
                &&& mappings.len() == 0
                &&& info.mappings.len() == 0
                &&& resolved(info.base, text) == Err::<UrlView, ErrorView>(
                    ErrorView::InvalidBaseJoin(text),
                )
            },
            Err(e) => file_url_of(path) == Err::<UrlView, ErrorView>(e),
        },
{
}

/// A file that is prepared with a root directory that it lies within, and
/// without a declared base, resolves a link that is relative to the root
/// and no URL of its own by the rooted join onto the root directory, and
/// what the link resolves to lies within the root directory.
pub proof fn lemma_covered_file_resolves_root(
    path: Seq<char>,
    root: Seq<char>,
    subpath: Seq<char>,
    text: Seq<char>,
)
    requires
        file_url_of(path) is Ok,
        directory_url_of(root) is Ok,
        relative_to(file_url_of(path)->Ok_0, directory_url_of(root)->Ok_0) == Some(subpath),
        url_parse(text) is Err,
    ensures
        prepared_for(SourceView::FsPath(path), Some((root, None)), None) is Ok,
        ({
            let info = prepared_for(SourceView::FsPath(path), Some((root, None)), None)->Ok_0.0;
            let origin = directory_url_of(root)->Ok_0;
            &&& info.base == Some((origin, subpath, true))
            &&& resolved(info.base, text) == rooted_join(origin, seq![subpath, text])
            &&& resolved(info.base, text) matches Ok(u) ==> within(u, origin) || u == origin
        }),
{
    let origin = directory_url_of(root)->Ok_0;
    assert(origin.scheme == "file"@);
    let pairs = seq![(origin, origin)];
    assert(pairs[0] == (origin, origin));
}

/// Nothing but a well-founded base resolves a link that is relative to the
/// root: without one, such a link is refused or is a URL of its own.
pub proof fn lemma_root_needs_well_founded(base: Option<BaseParts>, text: Seq<char>)
    requires
        root_relative(text),
        !(base matches Some((_, _, well_founded)) && well_founded),
    ensures
        resolved(base, text) == match url_parse(text) {
            Ok(u) => Ok::<UrlView, ErrorView>(u),
            Err(_) => Err::<UrlView, ErrorView>(ErrorView::InvalidBaseJoin(text)),
        },
{
}

/// What is put onto a base from below the sentinel root stays within the
/// base.
pub proof fn lemma_rebased_is_confined(loose: UrlView, root: UrlView, base: UrlView)
    ensures
        rebased(loose, root, base) matches Ok(u) ==> within(u, base) || u == base,
        forall|candidate: UrlView|
            within(#[trigger] confined(candidate, base), base) || confined(candidate, base)
                == base,
{
}

} // verus!
