//! A filter over store identifiers: whether an identifier lies inside a
//! given chain of collections.
//!
//! An identifier is taken as its path components; a chain of collections
//! is a sequence of names.  The identifier lies in the chain when each of
//! its leading components equals the collection name at the same depth,
//! pair by pair as far as both sequences reach.
#![verifier::loop_isolation(false)]

use vstd::prelude::*;

use crate::text::{chars_eq, seqs_view};

verus! {

broadcast use vstd::std_specs::vec::group_vec_axioms, vstd::seq::group_seq_axioms;

/// Whether the identifier with components `sid` lies in the collection
/// chain `colls`: the two agree wherever both are defined.
pub open spec fn spec_is_in_collections(colls: Seq<Seq<char>>, sid: Seq<Seq<char>>) -> bool {
    forall|i: int| 0 <= i < colls.len() && i < sid.len() ==> sid[i] == colls[i]
}

/// Admits the identifiers that lie in one given collection chain, or all
/// identifiers when no chain is given.
pub struct IsInCollectionsFilter(pub Option<Vec<Vec<char>>>);

impl IsInCollectionsFilter {
    /// A filter for the given collection chain; `None` admits everything.
    pub fn new(collections: Option<Vec<Vec<char>>>) -> (r: Self)
        ensures
            r.0 == collections,
    {
        IsInCollectionsFilter(collections)
    }

    /// Whether the identifier with components `sid` passes the filter.
    pub fn filter(&self, sid: &Vec<Vec<char>>) -> (r: bool)
        ensures
            match self.0 {
                Some(colls) => r == spec_is_in_collections(seqs_view(colls), seqs_view(*sid)),
                None => r == true,
            },
    {
        match &self.0 {
            None => true,
            Some(colls) => {
                let m: usize = if colls.len() < sid.len() {
                    colls.len()
                } else {
                    sid.len()
                };
                let mut i: usize = 0;
                while i < m
                    invariant
                        i <= m,
                        m <= colls@.len(),
                        m <= sid@.len(),
                        forall|k: int| 0 <= k < i ==> seqs_view(*sid)[k] == seqs_view(*colls)[k],
                    decreases m - i,
                {
                    if !chars_eq(&colls[i], &sid[i]) {
                        proof {
                            assert(seqs_view(*sid)[i as int] != seqs_view(*colls)[i as int]);
                        }
                        return false;
                    }
                    i = i + 1;
                }
                true
            },
        }
    }
}

} // verus!
