//! The result of resolving a module specifier: a filesystem path together
//! with the optional `?query` and `#fragment` suffixes that were part of the
//! original specifier, and a lossless reconstruction of that specifier.
//!
//! Paths are carried in their native byte form, so reconstruction is
//! byte-for-byte even when a path is not valid text in any fixed encoding.

use vstd::prelude::*;

verus! {

/// The byte value of the `?` that leads a query.
pub const QUERY_MARKER: u8 = 63;

/// The byte value of the `#` that leads a fragment.
pub const FRAGMENT_MARKER: u8 = 35;

/// Mathematical model of a resolution: the path bytes and the optional
/// suffix bytes, exactly as the value was built from.
pub struct ResolutionModel {
    pub path: Seq<u8>,
    pub query: Option<Seq<u8>>,
    pub fragment: Option<Seq<u8>>,
}

/// The bytes an optional suffix contributes to the combined specifier:
/// its own bytes when present, nothing when absent.
pub open spec fn suffix_or_empty(suffix: Option<Seq<u8>>) -> Seq<u8> {
    match suffix {
        Some(s) => s,
        None => Seq::empty(),
    }
}

impl ResolutionModel {
    /// A query starts with `?` and a fragment with `#`; both are optional.
    pub open spec fn wf(self) -> bool {
        &&& (self.query matches Some(q) ==> q.len() >= 1 && q[0] == QUERY_MARKER)
        &&& (self.fragment matches Some(f) ==> f.len() >= 1 && f[0] == FRAGMENT_MARKER)
    }

    /// The combined specifier: path, then query if any, then fragment if any.
    pub open spec fn full(self) -> Seq<u8> {
        self.path + suffix_or_empty(self.query) + suffix_or_empty(self.fragment)
    }
}

/// The model of an optional byte string held in executable form.
pub open spec fn opt_bytes(v: Option<Vec<u8>>) -> Option<Seq<u8>> {
    match v {
        Some(b) => Some(b@),
        None => None,
    }
}

/// The final path resolution with optional `?query` and `#fragment`.
#[derive(Debug, Clone, PartialEq, Eq)]
pub struct Resolution {
    path: Vec<u8>,
    query: Option<Vec<u8>>,
    fragment: Option<Vec<u8>>,
}

impl View for Resolution {
    type V = ResolutionModel;

    closed spec fn view(&self) -> ResolutionModel {
        ResolutionModel {
            path: self.path@,
            query: opt_bytes(self.query),
            fragment: opt_bytes(self.fragment),
        }
    }
}

impl Resolution {
    /// Builds a resolution from already-split parts. The caller has split
    /// the specifier, so a present query starts with `?` and a present
    /// fragment with `#`; nothing is re-validated here.
    pub fn new(path: Vec<u8>, query: Option<Vec<u8>>, fragment: Option<Vec<u8>>) -> (r: Resolution)
        requires
            query matches Some(q) ==> q@.len() >= 1 && q@[0] == QUERY_MARKER,
            fragment matches Some(f) ==> f@.len() >= 1 && f@[0] == FRAGMENT_MARKER,
        ensures
            r@ == (ResolutionModel {
                path: path@,
                query: opt_bytes(query),
                fragment: opt_bytes(fragment),
            }),
            r@.wf(),
    {
        Resolution { path, query, fragment }
    }

    /// Returns the path without query and fragment.
    pub fn path(&self) -> (r: &Vec<u8>)
        ensures
            r@ == self@.path,
    {
        &self.path
    }

    /// Returns the path without query and fragment, consuming the resolution.
    pub fn into_path_buf(self) -> (r: Vec<u8>)
        ensures
            r@ == self@.path,
    {
        self.path
    }

    /// Returns the path query `?query`, with the leading `?`.
    pub fn query(&self) -> (r: Option<&Vec<u8>>)
        ensures
            r is Some <==> self@.query is Some,
            r matches Some(q) ==> self@.query == Some(q@),
    {
        self.query.as_ref()
    }

    /// Returns the path fragment `#fragment`, with the leading `#`.
    pub fn fragment(&self) -> (r: Option<&Vec<u8>>)
        ensures
            r is Some <==> self@.fragment is Some,
            r matches Some(f) ==> self@.fragment == Some(f@),
    {
        self.fragment.as_ref()
    }

    /// Returns the full path with query and fragment: byte-for-byte the
    /// original combined specifier.
    pub fn full_path(self) -> (r: Vec<u8>)
        ensures
            r@ == self@.full(),
    {
        let ghost m = self@;
        let Resolution { mut path, query, fragment } = self;
        if let Some(mut query) = query {
            path.append(&mut query);
        }
        if let Some(mut fragment) = fragment {
            path.append(&mut fragment);
        }
        proof {
            assert(path@ =~= m.full());
        }
        path
    }
}

/// Law: rebuilding from the three parts yields exactly the path, followed by
/// the query when present, followed by the fragment when present.
pub proof fn lemma_round_trip(path: Seq<u8>, query: Option<Seq<u8>>, fragment: Option<Seq<u8>>)
    ensures
        (ResolutionModel { path, query, fragment }).full() == path + (match query {
            Some(q) => q,
            None => Seq::<u8>::empty(),
        }) + (match fragment {
            Some(f) => f,
            None => Seq::<u8>::empty(),
        }),
{
}

/// Law: the path component carries no suffix content, whether or not a query
/// or fragment is present; it is exactly the leading part of the combined
/// specifier.
pub proof fn lemma_path_excludes_suffixes(
    path: Seq<u8>,
    query: Option<Seq<u8>>,
    fragment: Option<Seq<u8>>,
)
    ensures
        (ResolutionModel { path, query, fragment }).path == path,
        (ResolutionModel { path, query, fragment }).full().subrange(0, path.len() as int)
            == path,
{
    assert((ResolutionModel { path, query, fragment }).full().subrange(0, path.len() as int)
        =~= path);
}

/// Law: a query and a fragment are independently optional; every combination
/// of presence and absence makes a well-formed resolution.
pub proof fn lemma_all_combinations_valid(
    path: Seq<u8>,
    query: Option<Seq<u8>>,
    fragment: Option<Seq<u8>>,
)
    requires
        query matches Some(q) ==> q.len() >= 1 && q[0] == QUERY_MARKER,
        fragment matches Some(f) ==> f.len() >= 1 && f[0] == FRAGMENT_MARKER,
    ensures
        (ResolutionModel { path, query, fragment }).wf(),
{
}

} // verus!
