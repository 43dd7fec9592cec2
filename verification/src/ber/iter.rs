//! Traversal and indexing over nested constructed content.
//!
//! Three deliberately distinct forms, because only Sequence and SetOf have
//! children:
//!
//! - consuming iteration yields the children of a structured object in decode
//!   order, and yields a leaf object itself exactly once (leaf-as-singleton);
//! - non-owning iteration yields borrowed children for the structured types
//!   only, and nothing for a leaf — no singleton fallback;
//! - positional indexing demands a structured object and an in-range
//!   position; violating that demand is a caller bug, not a recoverable
//!   error.
//!
//! The asymmetry between the first two forms is load-bearing for existing
//! callers and is kept exactly.

use vstd::prelude::*;

verus! {

use vstd::pervasive::unreached;

use crate::ber::model::{lemma_view_objs_index, lemma_view_objs_len, SpecContent, SpecObject};
use crate::ber::object::{clone_object, BerObject, BerObjectContent};

/// What consuming iteration yields at position `idx`: the child there for
/// the two structured types, the object itself at position zero for every
/// other variant.
pub open spec fn consuming_item(o: SpecObject, idx: int) -> Option<SpecObject> {
    match o.content {
        SpecContent::Sequence(els) => if 0 <= idx < els.len() {
            Some(els[idx])
        } else {
            None
        },
        SpecContent::SetOf(els) => if 0 <= idx < els.len() {
            Some(els[idx])
        } else {
            None
        },
        _ => if idx == 0 {
            Some(o)
        } else {
            None
        },
    }
}

/// What non-owning iteration yields at position `idx`: the child there for
/// the two structured types, nothing for every other variant.
pub open spec fn ref_item(o: SpecObject, idx: int) -> Option<SpecObject> {
    match o.content {
        SpecContent::Sequence(els) => if 0 <= idx < els.len() {
            Some(els[idx])
        } else {
            None
        },
        SpecContent::SetOf(els) => if 0 <= idx < els.len() {
            Some(els[idx])
        } else {
            None
        },
        _ => None,
    }
}

/// Consuming iteration: a finite, single-pass, non-restartable walk that
/// yields owned objects.
pub struct BerObjectIntoIterator {
    val: BerObject,
    idx: usize,
}

impl BerObjectIntoIterator {
    /// The object being consumed.
    pub closed spec fn spec_obj(&self) -> SpecObject {
        self.val@
    }

    /// The next position to yield.
    pub closed spec fn spec_idx(&self) -> int {
        self.idx as int
    }

    /// Yield the next object by value, or end the walk.
    pub fn next(&mut self) -> (r: Option<BerObject>)
        ensures
            final(self).spec_obj() == old(self).spec_obj(),
            (r matches Some(x) ==> consuming_item(old(self).spec_obj(), old(self).spec_idx())
                == Some(x@) && final(self).spec_idx() == old(self).spec_idx() + 1),
            (r is None ==> consuming_item(old(self).spec_obj(), old(self).spec_idx()) is None
                && final(self).spec_idx() == old(self).spec_idx()),
    {
        match &self.val.content {
            BerObjectContent::Sequence(children) => {
                proof {
                    lemma_view_objs_len(children@);
                }
                if self.idx < children.len() {
                    proof {
                        lemma_view_objs_index(children@, self.idx as int);
                    }
                    let x = clone_object(&children[self.idx]);
                    self.idx = self.idx + 1;
                    Some(x)
                } else {
                    None
                }
            },
            BerObjectContent::SetOf(children) => {
                proof {
                    lemma_view_objs_len(children@);
                }
                if self.idx < children.len() {
                    proof {
                        lemma_view_objs_index(children@, self.idx as int);
                    }
                    let x = clone_object(&children[self.idx]);
                    self.idx = self.idx + 1;
                    Some(x)
                } else {
                    None
                }
            },
            _ => {
                if self.idx == 0 {
                    let x = clone_object(&self.val);
                    self.idx = 1;
                    Some(x)
                } else {
                    None
                }
            },
        }
    }
}

/// Non-owning iteration: yields borrowed references to the children of a
/// structured object, in order, and nothing for a leaf.
pub struct BerObjectRefIterator<'a> {
    obj: &'a BerObject,
    idx: usize,
}

impl<'a> BerObjectRefIterator<'a> {
    /// The object being walked.
    pub closed spec fn spec_obj(&self) -> SpecObject {
        (*self.obj)@
    }

    /// The next position to yield.
    pub closed spec fn spec_idx(&self) -> int {
        self.idx as int
    }

    /// Yield a reference to the next child, or end the walk.
    pub fn next(&mut self) -> (r: Option<&'a BerObject>)
        ensures
            final(self).spec_obj() == old(self).spec_obj(),
            (r matches Some(x) ==> ref_item(old(self).spec_obj(), old(self).spec_idx())
                == Some(x@) && final(self).spec_idx() == old(self).spec_idx() + 1),
            (r is None ==> ref_item(old(self).spec_obj(), old(self).spec_idx()) is None
                && final(self).spec_idx() == old(self).spec_idx()),
    {
        match &self.obj.content {
            BerObjectContent::Sequence(children) => {
                proof {
                    lemma_view_objs_len(children@);
                }
                if self.idx < children.len() {
                    proof {
                        lemma_view_objs_index(children@, self.idx as int);
                    }
                    let x = &children[self.idx];
                    self.idx = self.idx + 1;
                    Some(x)
                } else {
                    None
                }
            },
            BerObjectContent::SetOf(children) => {
                proof {
                    lemma_view_objs_len(children@);
                }
                if self.idx < children.len() {
                    proof {
                        lemma_view_objs_index(children@, self.idx as int);
                    }
                    let x = &children[self.idx];
                    self.idx = self.idx + 1;
                    Some(x)
                } else {
                    None
                }
            },
            _ => None,
        }
    }
}

impl BerObject {
    /// Start a consuming walk over this object.
    pub fn into_iter(self) -> (r: BerObjectIntoIterator)
        ensures
            r.spec_obj() == self@,
            r.spec_idx() == 0,
    {
        BerObjectIntoIterator { val: self, idx: 0 }
    }

    /// Start a non-owning walk over this object's children.
    pub fn ref_iter<'a>(&'a self) -> (r: BerObjectRefIterator<'a>)
        ensures
            r.spec_obj() == self@,
            r.spec_idx() == 0,
    {
        BerObjectRefIterator { obj: self, idx: 0 }
    }

    /// The child at 0-based position `idx` of a structured object. Indexing
    /// a leaf, or an out-of-range position, is a precondition violation — a
    /// caller bug, not a recoverable error; callers needing safety must
    /// bounds-check first, for instance through `ref_iter`.
    pub fn index(&self, idx: usize) -> (r: &BerObject)
        requires
            ref_item(self@, idx as int) is Some,
        ensures
            Some(r@) == ref_item(self@, idx as int),
    {
        match &self.content {
            BerObjectContent::Sequence(children) => {
                proof {
                    lemma_view_objs_len(children@);
                    lemma_view_objs_index(children@, idx as int);
                }
                &children[idx]
            },
            BerObjectContent::SetOf(children) => {
                proof {
                    lemma_view_objs_len(children@);
                    lemma_view_objs_index(children@, idx as int);
                }
                &children[idx]
            },
            _ => unreached(),
        }
    }
}

/// Leaf-as-singleton: a consuming walk over any non-structured object yields
/// exactly one element — the object itself — then ends.
pub proof fn lemma_consuming_leaf_singleton(o: SpecObject, idx: int)
    requires
        !(o.content is Sequence),
        !(o.content is SetOf),
    ensures
        consuming_item(o, 0) == Some(o),
        idx != 0 ==> consuming_item(o, idx) is None,
{
}

/// A consuming walk over a structured object yields exactly its children, in
/// decode order, then ends.
pub proof fn lemma_consuming_structured(o: SpecObject, els: Seq<SpecObject>, idx: int)
    requires
        o.content == SpecContent::Sequence(els) || o.content == SpecContent::SetOf(els),
    ensures
        0 <= idx < els.len() ==> consuming_item(o, idx) == Some(els[idx]),
        !(0 <= idx < els.len()) ==> consuming_item(o, idx) is None,
{
}

/// Iteration asymmetry: the same leaf object yields zero elements under
/// non-owning iteration and one element under consuming iteration.
pub proof fn lemma_iteration_asymmetry(o: SpecObject, idx: int)
    requires
        !(o.content is Sequence),
        !(o.content is SetOf),
    ensures
        ref_item(o, idx) is None,
        consuming_item(o, 0) == Some(o),
{
}

} // verus!
