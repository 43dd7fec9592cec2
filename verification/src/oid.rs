//! Object identifiers: hierarchical sequences of integers naming a
//! standardized object or algorithm.
//!
//! An `Oid` owns its component list, so it can be copied without referencing
//! the decode buffer it came from.

use vstd::prelude::*;

verus! {

use vstd::slice::slice_to_vec;

/// An object identifier, as the ordered list of its numeric components.
#[derive(Debug, PartialEq, Eq, Hash)]
pub struct Oid(pub Vec<u64>);

impl View for Oid {
    type V = Seq<u64>;

    open spec fn view(&self) -> Seq<u64> {
        self.0@
    }
}

impl Oid {
    /// Build an object identifier from a slice of components.
    pub fn from(ids: &[u64]) -> (r: Oid)
        ensures
            r@ == ids@,
    {
        Oid(slice_to_vec(ids))
    }
}

impl Clone for Oid {
    /// Deep copy: the copy denotes the same component list.
    fn clone(&self) -> (r: Self)
        ensures
            r@ == self@,
    {
        Oid(slice_to_vec(self.0.as_slice()))
    }
}

} // verus!
