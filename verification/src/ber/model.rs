//! Mathematical model of decoded objects.
//!
//! `SpecObject` and `SpecContent` mirror [`crate::ber::object::BerObject`] and
//! [`crate::ber::object::BerObjectContent`] with every payload abstracted to a
//! sequence, so that contracts can speak of what an object denotes rather than
//! of the vectors that hold it.

use vstd::prelude::*;

verus! {

use crate::ber::object::{BerObject, BerObjectContent};
use crate::ber::tag::BerTag;

/// What a decoded object denotes: its decode metadata and its content.
pub struct SpecObject {
    pub class: u8,
    pub structured: u8,
    pub tag: BerTag,
    pub content: SpecContent,
}

/// What a content payload denotes, one variant per logical type.
pub enum SpecContent {
    EndOfContent,
    Boolean(bool),
    Integer(Seq<u8>),
    BitString(u8, Seq<u8>),
    OctetString(Seq<u8>),
    Null,
    Enum(u64),
    OID(Seq<u64>),
    RelativeOID(Seq<u64>),
    NumericString(Seq<u8>),
    PrintableString(Seq<u8>),
    IA5String(Seq<u8>),
    UTF8String(Seq<u8>),
    T61String(Seq<u8>),
    BmpString(Seq<u8>),
    Sequence(Seq<SpecObject>),
    SetOf(Seq<SpecObject>),
    UTCTime(Seq<u8>),
    GeneralizedTime(Seq<u8>),
    GeneralString(Seq<u8>),
    ContextSpecific(BerTag, Option<Box<SpecObject>>),
    Unknown(BerTag, Seq<u8>),
}

/// The model of an object: metadata verbatim, content abstracted.
pub open spec fn view_obj(o: BerObject) -> SpecObject
    decreases o,
{
    SpecObject {
        class: o.class,
        structured: o.structured,
        tag: o.tag,
        content: view_content(o.content),
    }
}

/// The model of each element of a child list, in order.
pub open spec fn view_objs(v: Seq<BerObject>) -> Seq<SpecObject>
    decreases v,
{
    if v.len() == 0 {
        Seq::empty()
    } else {
        seq![view_obj(v[0])] + view_objs(v.subrange(1, v.len() as int))
    }
}

/// A child list and its model have the same length.
pub broadcast proof fn lemma_view_objs_len(v: Seq<BerObject>)
    ensures
        #[trigger] view_objs(v).len() == v.len(),
    decreases v,
{
    if v.len() > 0 {
        lemma_view_objs_len(v.subrange(1, v.len() as int));
    }
}

/// The model of a child list holds, position by position, the model of each
/// child.
pub broadcast proof fn lemma_view_objs_index(v: Seq<BerObject>, i: int)
    requires
        0 <= i < v.len(),
    ensures
        #[trigger] view_objs(v)[i] == view_obj(v[i]),
    decreases v,
{
    lemma_view_objs_len(v.subrange(1, v.len() as int));
    if i > 0 {
        lemma_view_objs_index(v.subrange(1, v.len() as int), i - 1);
    }
}

/// The model of a content payload.
pub open spec fn view_content(c: BerObjectContent) -> SpecContent
    decreases c,
{
    match c {
        BerObjectContent::EndOfContent => SpecContent::EndOfContent,
        BerObjectContent::Boolean(b) => SpecContent::Boolean(b),
        BerObjectContent::Integer(bytes) => SpecContent::Integer(bytes@),
        BerObjectContent::BitString(unused, b) => SpecContent::BitString(unused, b@),
        BerObjectContent::OctetString(bytes) => SpecContent::OctetString(bytes@),
        BerObjectContent::Null => SpecContent::Null,
        BerObjectContent::Enum(i) => SpecContent::Enum(i),
        BerObjectContent::OID(oid) => SpecContent::OID(oid@),
        BerObjectContent::RelativeOID(oid) => SpecContent::RelativeOID(oid@),
        BerObjectContent::NumericString(bytes) => SpecContent::NumericString(bytes@),
        BerObjectContent::PrintableString(bytes) => SpecContent::PrintableString(bytes@),
        BerObjectContent::IA5String(bytes) => SpecContent::IA5String(bytes@),
        BerObjectContent::UTF8String(bytes) => SpecContent::UTF8String(bytes@),
        BerObjectContent::T61String(bytes) => SpecContent::T61String(bytes@),
        BerObjectContent::BmpString(bytes) => SpecContent::BmpString(bytes@),
        BerObjectContent::Sequence(v) => SpecContent::Sequence(view_objs(v@)),
        BerObjectContent::SetOf(v) => SpecContent::SetOf(view_objs(v@)),
        BerObjectContent::UTCTime(bytes) => SpecContent::UTCTime(bytes@),
        BerObjectContent::GeneralizedTime(bytes) => SpecContent::GeneralizedTime(bytes@),
        BerObjectContent::GeneralString(bytes) => SpecContent::GeneralString(bytes@),
        BerObjectContent::ContextSpecific(t, inner) => SpecContent::ContextSpecific(
            t,
            match inner {
                Some(b) => Some(Box::new(view_obj(*b))),
                None => None,
            },
        ),
        BerObjectContent::Unknown(t, bytes) => SpecContent::Unknown(t, bytes@),
    }
}

/// The model of an optional nested object.
pub open spec fn view_opt_obj(inner: Option<Box<BerObject>>) -> Option<Box<SpecObject>> {
    match inner {
        Some(b) => Some(Box::new(view_obj(*b))),
        None => None,
    }
}

impl View for BerObject {
    type V = SpecObject;

    open spec fn view(&self) -> SpecObject {
        view_obj(*self)
    }
}

impl View for BerObjectContent {
    type V = SpecContent;

    open spec fn view(&self) -> SpecContent {
        view_content(*self)
    }
}

} // verus!
