//! Mapping of URLs based on prefix matches of the URL's path structure.

use vstd::prelude::*;
use vstd::string::*;
use crate::error::{ErrorKind, ErrorView};
use crate::rooted::{leads_to, relative_to, within};
use crate::url_model::{Url, UrlView};

verus! {

/// A collection of URL mappings which can be applied in either direction.
///
/// A mapping is a pair of URLs that stand for each other. The first URL of
/// a pair is called the old URL and the second the new URL, though the
/// mapping can be read in either direction: for a pair `(remote, local)` of
/// a remote URL and the local directory that holds its files,
/// [`UrlMappings::map_to_new_url`] leads from a URL within `local` to
/// `remote`, and [`UrlMappings::map_to_old_url`] from a URL within `remote`
/// to `local`.
///
/// A URL matches a side of a pair when it lies within the URL on that side,
/// that is, when it has that URL as a prefix. The pairs keep the order in
/// which they were given, and the first pair that matches is the one that
/// applies.
///
/// No URL of a mapping may lie within the URL that it is to be told from:
/// the two URLs of a pair, unless they are the same URL, and the URLs on the
/// same side of two pairs.
#[derive(Debug, PartialEq, Eq)]
pub struct UrlMappings {
    /// List of tuples of `old_url`, `new_url`.
    mappings: Vec<(Url, Url)>,
}

/// The reason given when a pair is refused.
pub const NESTED_REASON: &'static str = "base cannot be parent or child of root-dir ";

/// The views of a list of pairs.
pub open spec fn pairs_view(pairs: Seq<(Url, Url)>) -> Seq<(UrlView, UrlView)> {
    pairs.map_values(|p: (Url, Url)| (p.0@, p.1@))
}

/// Two different URLs of which one lies within the other.
pub open spec fn nested(a: UrlView, b: UrlView) -> bool {
    a.text != b.text && (within(a, b) || within(b, a))
}

/// Pair `k` and pair `j` have a side on which one URL lies within the other.
pub open spec fn clash(pairs: Seq<(UrlView, UrlView)>, k: int, j: int) -> bool {
    nested(pairs[k].0, pairs[j].0) || nested(pairs[k].1, pairs[j].1)
}

/// Pair `k` breaks the rule: its own sides are nested, or one of its sides
/// is nested with the same side of another pair.
pub open spec fn offends(pairs: Seq<(UrlView, UrlView)>, k: int) -> bool {
    ||| nested(pairs[k].0, pairs[k].1)
    ||| exists|j: int| 0 <= j < pairs.len() && j != k && #[trigger] clash(pairs, k, j)
}

/// No pair breaks the rule.
pub open spec fn well_formed(pairs: Seq<(UrlView, UrlView)>) -> bool {
    forall|k: int| 0 <= k < pairs.len() ==> !#[trigger] offends(pairs, k)
}

/// Pair `k` is the first that breaks the rule.
pub open spec fn is_first_offender(pairs: Seq<(UrlView, UrlView)>, k: int) -> bool {
    &&& 0 <= k < pairs.len()
    &&& offends(pairs, k)
    &&& forall|j: int| 0 <= j < k ==> !#[trigger] offends(pairs, j)
}

/// The error that names a refused pair.
pub open spec fn refusal(pair: (UrlView, UrlView)) -> ErrorView {
    ErrorView::InvalidBase(pair.0.text, NESTED_REASON@ + pair.1.text)
}

/// The first pair that has `u` within its new URL, the second of the pair,
/// with its old URL and the relative text of `u`.
pub open spec fn lookup_new(pairs: Seq<(UrlView, UrlView)>, u: UrlView) -> Option<
    (UrlView, Seq<char>),
>
    decreases pairs.len(),
{
    if pairs.len() == 0 {
        None
    } else {
        match relative_to(u, pairs[0].1) {
            Some(text) => Some((pairs[0].0, text)),
            None => lookup_new(pairs.drop_first(), u),
        }
    }
}

/// The first pair that has `u` within its old URL, the first of the pair,
/// with its new URL and the relative text of `u`.
pub open spec fn lookup_old(pairs: Seq<(UrlView, UrlView)>, u: UrlView) -> Option<
    (UrlView, Seq<char>),
>
    decreases pairs.len(),
{
    if pairs.len() == 0 {
        None
    } else {
        match relative_to(u, pairs[0].0) {
            Some(text) => Some((pairs[0].1, text)),
            None => lookup_old(pairs.drop_first(), u),
        }
    }
}

/// Pair `i` is the first whose new URL has `u` within it.
pub open spec fn is_first_match_new(pairs: Seq<(UrlView, UrlView)>, u: UrlView, i: int) -> bool {
    &&& 0 <= i < pairs.len()
    &&& relative_to(u, pairs[i].1) is Some
    &&& forall|j: int| 0 <= j < i ==> relative_to(u, (#[trigger] pairs[j]).1) is None
}

/// Pair `i` is the first whose old URL has `u` within it.
pub open spec fn is_first_match_old(pairs: Seq<(UrlView, UrlView)>, u: UrlView, i: int) -> bool {
    &&& 0 <= i < pairs.len()
    &&& relative_to(u, pairs[i].0) is Some
    &&& forall|j: int| 0 <= j < i ==> relative_to(u, (#[trigger] pairs[j]).0) is None
}

/// A lookup among the new URLs finds the first pair whose new URL has `u`
/// within it, and hands out the old URL of that pair with the text that
/// leads from the new URL to `u`. It finds nothing only where no pair has
/// `u` within its new URL.
pub proof fn lemma_lookup_new(pairs: Seq<(UrlView, UrlView)>, u: UrlView)
    ensures
        match lookup_new(pairs, u) {
            Some((old, text)) => exists|i: int|
                #[trigger] is_first_match_new(pairs, u, i) && old == pairs[i].0 && relative_to(
                    u,
                    pairs[i].1,
                ) == Some(text) && leads_to(pairs[i].1, text, u),
            None => forall|i: int|
                0 <= i < pairs.len() ==> relative_to(u, (#[trigger] pairs[i]).1) is None,
        },
    decreases pairs.len(),
{
    if pairs.len() > 0 {
        let rest = pairs.drop_first();
        lemma_lookup_new(rest, u);
        assert forall|i: int| 0 <= i < rest.len() implies #[trigger] rest[i] == pairs[i + 1] by {}
        if relative_to(u, pairs[0].1) is Some {
            assert(is_first_match_new(pairs, u, 0));
        } else if lookup_new(rest, u) is Some {
            let i = choose|i: int| #[trigger] is_first_match_new(rest, u, i);
            assert forall|j: int| 0 <= j < i + 1 implies relative_to(u, (#[trigger] pairs[j]).1)
                is None by {
                if j > 0 {
                    assert(pairs[j] == rest[j - 1]);
                }
            }
            assert(is_first_match_new(pairs, u, i + 1));
        } else {
            assert forall|i: int| 0 <= i < pairs.len() implies relative_to(
                u,
                (#[trigger] pairs[i]).1,
            ) is None by {
                if i > 0 {
                    assert(pairs[i] == rest[i - 1]);
                }
            }
        }
    }
}

/// A lookup among the old URLs finds the first pair whose old URL has `u`
/// within it, and hands out the new URL of that pair with the text that
/// leads from the old URL to `u`. It finds nothing only where no pair has
/// `u` within its old URL.
pub proof fn lemma_lookup_old(pairs: Seq<(UrlView, UrlView)>, u: UrlView)
    ensures
        match lookup_old(pairs, u) {
            Some((new, text)) => exists|i: int|
                #[trigger] is_first_match_old(pairs, u, i) && new == pairs[i].1 && relative_to(
                    u,
                    pairs[i].0,
                ) == Some(text) && leads_to(pairs[i].0, text, u),
            None => forall|i: int|
                0 <= i < pairs.len() ==> relative_to(u, (#[trigger] pairs[i]).0) is None,
        },
    decreases pairs.len(),
{
    if pairs.len() > 0 {
        let rest = pairs.drop_first();
        lemma_lookup_old(rest, u);
        assert forall|i: int| 0 <= i < rest.len() implies #[trigger] rest[i] == pairs[i + 1] by {}
        if relative_to(u, pairs[0].0) is Some {
            assert(is_first_match_old(pairs, u, 0));
        } else if lookup_old(rest, u) is Some {
            let i = choose|i: int| #[trigger] is_first_match_old(rest, u, i);
            assert forall|j: int| 0 <= j < i + 1 implies relative_to(u, (#[trigger] pairs[j]).0)
                is None by {
                if j > 0 {
                    assert(pairs[j] == rest[j - 1]);
                }
            }
            assert(is_first_match_old(pairs, u, i + 1));
        } else {
            assert forall|i: int| 0 <= i < pairs.len() implies relative_to(
                u,
                (#[trigger] pairs[i]).0,
            ) is None by {
                if i > 0 {
                    assert(pairs[i] == rest[i - 1]);
                }
            }
        }
    }
}

/// Whether one of two different URLs lies within the other.
fn is_nested(a: &Url, b: &Url) -> (r: bool)
    ensures
        r == nested(a@, b@),
{
    if a.same_text(b) {
        false
    } else {
        a.is_within(b) || b.is_within(a)
    }
}

/// Whether pair `k` breaks the rule.
fn is_offender(mappings: &Vec<(Url, Url)>, k: usize) -> (r: bool)
    requires
        k < mappings@.len(),
    ensures
        r == offends(pairs_view(mappings@), k as int),
{
    let ghost pairs = pairs_view(mappings@);
    if is_nested(&mappings[k].0, &mappings[k].1) {
        return true;
    }
    let mut j: usize = 0;
    while j < mappings.len()
        invariant
            j <= mappings@.len(),
            k < mappings@.len(),
            pairs == pairs_view(mappings@),
            forall|i: int| 0 <= i < j && i != k ==> !#[trigger] clash(pairs, k as int, i),
        decreases mappings.len() - j,
    {
        if j != k && (is_nested(&mappings[k].0, &mappings[j].0) || is_nested(
            &mappings[k].1,
            &mappings[j].1,
        )) {
            assert(clash(pairs, k as int, j as int));
            return true;
        }
        j = j + 1;
    }
    false
}

impl View for UrlMappings {
    type V = Seq<(UrlView, UrlView)>;

    closed spec fn view(&self) -> Seq<(UrlView, UrlView)> {
        pairs_view(self.mappings@)
    }
}

/// Two URLs that both have `u` within them lie one within the other.
pub proof fn lemma_within_both(u: UrlView, a: UrlView, b: UrlView)
    requires
        within(u, a),
        within(u, b),
    ensures
        within(a, b) || within(b, a),
{
    let ad = a.segments->0.drop_last();
    let bd = b.segments->0.drop_last();
    if ad.len() <= bd.len() {
        assert(ad =~= bd.subrange(0, ad.len() as int));
    } else {
        assert(bd =~= ad.subrange(0, bd.len() as int));
    }
}

/// In well-formed mappings, the pairs that a URL matches on one side all
/// have the same URL on that side: which pair comes first matters only
/// among pairs that repeat a URL.
pub proof fn lemma_matches_agree(pairs: Seq<(UrlView, UrlView)>, u: UrlView, i: int, j: int)
    requires
        well_formed(pairs),
        0 <= i < pairs.len(),
        0 <= j < pairs.len(),
    ensures
        within(u, pairs[i].0) && within(u, pairs[j].0) ==> pairs[i].0.text == pairs[j].0.text,
        within(u, pairs[i].1) && within(u, pairs[j].1) ==> pairs[i].1.text == pairs[j].1.text,
        relative_to(u, pairs[i].0) is Some && relative_to(u, pairs[j].0) is Some ==> pairs[i].0.text
            == pairs[j].0.text,
        relative_to(u, pairs[i].1) is Some && relative_to(u, pairs[j].1) is Some ==> pairs[i].1.text
            == pairs[j].1.text,
{
    assert(!offends(pairs, i));
    if i != j {
        assert(!clash(pairs, i, j));
        if within(u, pairs[i].0) && within(u, pairs[j].0) {
            lemma_within_both(u, pairs[i].0, pairs[j].0);
        }
        if within(u, pairs[i].1) && within(u, pairs[j].1) {
            lemma_within_both(u, pairs[i].1, pairs[j].1);
        }
    }
}

impl Clone for UrlMappings {
    fn clone(&self) -> (r: Self)
        ensures
            r@ == self@,
    {
        let mut out: Vec<(Url, Url)> = Vec::new();
        let mut i: usize = 0;
        while i < self.mappings.len()
            invariant
                i <= self.mappings@.len(),
                out@.len() == i,
                forall|j: int|
                    0 <= j < i ==> (#[trigger] out@[j]).0@ == self.mappings@[j].0@ && out@[j].1@
                        == self.mappings@[j].1@,
            decreases self.mappings.len() - i,
        {
            out.push((self.mappings[i].0.clone(), self.mappings[i].1.clone()));
            i = i + 1;
        }
        assert(pairs_view(out@) =~= pairs_view(self.mappings@));
        proof {
            use_type_invariant(self);
        }
        UrlMappings { mappings: out }
    }
}

impl UrlMappings {
    /// No pair has a URL within the URL that it is to be told from.
    #[verifier::type_invariant]
    spec fn no_pair_offends(&self) -> bool {
        well_formed(pairs_view(self.mappings@))
    }

    /// Constructs a new [`UrlMappings`] from the given mappings.
    ///
    /// # Errors
    ///
    /// If a pair has a URL which lies within its other URL, or within the
    /// URL on the same side of another pair, or has such a URL within one of
    /// its own: `InvalidBase`, with the first URL of the first such pair
    /// and a reason that names its second.
    pub fn new(mappings: Vec<(Url, Url)>) -> (r: Result<Self, ErrorKind>)
        ensures
            match r {
                Ok(m) => m@ == pairs_view(mappings@) && well_formed(m@),
                Err(e) => exists|k: int|
                    #[trigger] is_first_offender(pairs_view(mappings@), k) && e@ == refusal(
                        pairs_view(mappings@)[k],
                    ),
            },
    {
        let ghost pairs = pairs_view(mappings@);
        let mut k: usize = 0;
        while k < mappings.len()
            invariant
                k <= mappings@.len(),
                pairs == pairs_view(mappings@),
                forall|j: int| 0 <= j < k ==> !#[trigger] offends(pairs, j),
            decreases mappings.len() - k,
        {
            if is_offender(&mappings, k) {
                let value = mappings[k].0.as_str().to_owned();
                let reason = String::from_str(NESTED_REASON).concat(mappings[k].1.as_str());
                assert(is_first_offender(pairs, k as int));
                return Err(ErrorKind::InvalidBase(value, reason));
            }
            k = k + 1;
        }
        Ok(UrlMappings { mappings })
    }

    /// Mappings without a pair.
    pub fn empty() -> (r: Self)
        ensures
            r@.len() == 0,
    {
        UrlMappings { mappings: Vec::new() }
    }

    /// The number of pairs. Mappings are well-formed, however they were
    /// made.
    pub fn len(&self) -> (r: usize)
        ensures
            r == self@.len(),
            well_formed(self@),
    {
        proof {
            use_type_invariant(self);
        }
        self.mappings.len()
    }

    /// Matches the given URL against the new (second) URLs and returns the
    /// old (first) URL of the first matched pair, if any.
    ///
    /// If matched, the returned option holds the old URL of the pair, along
    /// with the subpath of the given URL when the new URL of the pair is
    /// removed from it. The subpath, joined onto the new URL of the pair,
    /// gives the given URL again; joined onto the old URL, it gives the URL
    /// that stands for the given one on the old side.
    pub fn map_to_new_url(&self, url: &Url) -> (r: Option<(&Url, String)>)
        ensures
            match r {
                Some((old, subpath)) => lookup_new(self@, url@) == Some((old@, subpath@)),
                None => lookup_new(self@, url@) is None,
            },
            match r {
                Some((old, subpath)) => exists|i: int|
                    #[trigger] is_first_match_new(self@, url@, i) && old@ == self@[i].0 && leads_to(
                        self@[i].1,
                        subpath@,
                        url@,
                    ),
                None => forall|i: int|
                    0 <= i < self@.len() ==> relative_to(url@, (#[trigger] self@[i]).1) is None,
            },
    {
        let ghost pairs = self@;
        let mut i: usize = 0;
        assert(pairs.skip(0) =~= pairs);
        while i < self.mappings.len()
            invariant
                i <= self.mappings@.len(),
                pairs == pairs_view(self.mappings@),
                lookup_new(pairs, url@) == lookup_new(pairs.skip(i as int), url@),
                forall|j: int| 0 <= j < i ==> relative_to(url@, (#[trigger] pairs[j]).1) is None,
            decreases self.mappings.len() - i,
        {
            assert(pairs.skip(i as int).drop_first() =~= pairs.skip(i + 1));
            match url.strictly_relative_to(&self.mappings[i].1) {
                Some(subpath) => {
                    assert(is_first_match_new(pairs, url@, i as int));
                    return Some((&self.mappings[i].0, subpath));
                },
                None => {},
            }
            i = i + 1;
        }
        None
    }

    /// Like [`UrlMappings::map_to_new_url`] but in the other direction,
    /// matching against the old (first) URLs and returning the new (second)
    /// URL of the first matched pair, if any.
    pub fn map_to_old_url(&self, url: &Url) -> (r: Option<(&Url, String)>)
        ensures
            match r {
                Some((new, subpath)) => lookup_old(self@, url@) == Some((new@, subpath@)),
                None => lookup_old(self@, url@) is None,
            },
            match r {
                Some((new, subpath)) => exists|i: int|
                    #[trigger] is_first_match_old(self@, url@, i) && new@ == self@[i].1 && leads_to(
                        self@[i].0,
                        subpath@,
                        url@,
                    ),
                None => forall|i: int|
                    0 <= i < self@.len() ==> relative_to(url@, (#[trigger] self@[i]).0) is None,
            },
    {
        let ghost pairs = self@;
        let mut i: usize = 0;
        assert(pairs.skip(0) =~= pairs);
        while i < self.mappings.len()
            invariant
                i <= self.mappings@.len(),
                pairs == pairs_view(self.mappings@),
                lookup_old(pairs, url@) == lookup_old(pairs.skip(i as int), url@),
                forall|j: int| 0 <= j < i ==> relative_to(url@, (#[trigger] pairs[j]).0) is None,
            decreases self.mappings.len() - i,
        {
            assert(pairs.skip(i as int).drop_first() =~= pairs.skip(i + 1));
            match url.strictly_relative_to(&self.mappings[i].0) {
                Some(subpath) => {
                    assert(is_first_match_old(pairs, url@, i as int));
                    return Some((&self.mappings[i].1, subpath));
                },
                None => {},
            }
            i = i + 1;
        }
        None
    }
}

} // verus!
