//! Headers, content variants, and the composite object consumers receive.

use vstd::prelude::*;

verus! {

use vstd::slice::slice_to_vec;

use crate::ber::bitstring::BitStringObject;
use crate::ber::integer::{bytes_to_u64, spec_as_u32, spec_as_u64};
use crate::ber::model::{
    lemma_view_objs_index, lemma_view_objs_len, view_obj, view_objs, view_opt_obj, SpecContent,
    SpecObject,
};
use crate::ber::tag::BerTag;
use crate::error::BerError;
use crate::oid::Oid;

/// Decode metadata for one tag-length-value record: 2-bit class, constructed
/// flag, tag, and declared length. Carries no payload.
#[derive(Clone, Copy, Debug, PartialEq, Eq, Structural)]
pub struct BerObjectHeader {
    pub class: u8,
    pub structured: u8,
    pub tag: BerTag,
    pub len: u64,
}

/// A decoded object: metadata plus content. Immutable once constructed.
#[derive(Debug, PartialEq)]
pub struct BerObject {
    pub class: u8,
    pub structured: u8,
    pub tag: BerTag,
    pub content: BerObjectContent,
}

/// The decoded payload, one variant per logical type. Payloads are copied
/// into owned storage at construction time, so a content value never depends
/// on the decode buffer it came from.
#[derive(Debug, PartialEq)]
pub enum BerObjectContent {
    EndOfContent,
    Boolean(bool),
    Integer(Vec<u8>),
    BitString(u8, BitStringObject),
    OctetString(Vec<u8>),
    Null,
    Enum(u64),
    OID(Oid),
    RelativeOID(Oid),
    NumericString(Vec<u8>),
    PrintableString(Vec<u8>),
    IA5String(Vec<u8>),
    UTF8String(Vec<u8>),
    T61String(Vec<u8>),
    BmpString(Vec<u8>),
    Sequence(Vec<BerObject>),
    SetOf(Vec<BerObject>),
    UTCTime(Vec<u8>),
    GeneralizedTime(Vec<u8>),
    GeneralString(Vec<u8>),
    ContextSpecific(BerTag, Option<Box<BerObject>>),
    Unknown(BerTag, Vec<u8>),
}

impl BerObjectHeader {
    /// Test if object class is Universal.
    pub fn is_universal(&self) -> (r: bool)
        ensures
            r == (self.class == 0),
    {
        self.class == 0
    }

    /// Test if object class is Application.
    pub fn is_application(&self) -> (r: bool)
        ensures
            r == (self.class == 0b01),
    {
        self.class == 0b01
    }

    /// Test if object class is Context-specific.
    pub fn is_contextspecific(&self) -> (r: bool)
        ensures
            r == (self.class == 0b10),
    {
        self.class == 0b10
    }

    /// Test if object class is Private.
    pub fn is_private(&self) -> (r: bool)
        ensures
            r == (self.class == 0b11),
    {
        self.class == 0b11
    }

    /// Test if object is primitive.
    pub fn is_primitive(&self) -> (r: bool)
        ensures
            r == (self.structured == 0),
    {
        self.structured == 0
    }

    /// Test if object is constructed.
    pub fn is_constructed(&self) -> (r: bool)
        ensures
            r == (self.structured == 1),
    {
        self.structured == 1
    }
}

/// The tag a content payload naturally implies. For context-specific and
/// unknown payloads that is the tag they carry.
pub open spec fn spec_tag_of(c: SpecContent) -> BerTag {
    match c {
        SpecContent::EndOfContent => BerTag(BerTag::END_OF_CONTENT),
        SpecContent::Boolean(_) => BerTag(BerTag::BOOLEAN),
        SpecContent::Integer(_) => BerTag(BerTag::INTEGER),
        SpecContent::BitString(_, _) => BerTag(BerTag::BIT_STRING),
        SpecContent::OctetString(_) => BerTag(BerTag::OCTET_STRING),
        SpecContent::Null => BerTag(BerTag::NULL),
        SpecContent::Enum(_) => BerTag(BerTag::ENUMERATED),
        SpecContent::OID(_) => BerTag(BerTag::OID),
        SpecContent::RelativeOID(_) => BerTag(BerTag::RELATIVE_OID),
        SpecContent::NumericString(_) => BerTag(BerTag::NUMERIC_STRING),
        SpecContent::PrintableString(_) => BerTag(BerTag::PRINTABLE_STRING),
        SpecContent::IA5String(_) => BerTag(BerTag::IA5_STRING),
        SpecContent::UTF8String(_) => BerTag(BerTag::UTF8_STRING),
        SpecContent::T61String(_) => BerTag(BerTag::T61_STRING),
        SpecContent::BmpString(_) => BerTag(BerTag::BMP_STRING),
        SpecContent::Sequence(_) => BerTag(BerTag::SEQUENCE),
        SpecContent::SetOf(_) => BerTag(BerTag::SET_OF),
        SpecContent::UTCTime(_) => BerTag(BerTag::UTC_TIME),
        SpecContent::GeneralizedTime(_) => BerTag(BerTag::GENERALIZED_TIME),
        SpecContent::GeneralString(_) => BerTag(BerTag::GENERAL_STRING),
        SpecContent::ContextSpecific(t, _) => t,
        SpecContent::Unknown(t, _) => t,
    }
}

impl BerObjectContent {
    /// The tag this content naturally implies.
    pub fn tag(&self) -> (r: BerTag)
        ensures
            r == spec_tag_of(self@),
    {
        match self {
            BerObjectContent::EndOfContent => BerTag(BerTag::END_OF_CONTENT),
            BerObjectContent::Boolean(_) => BerTag(BerTag::BOOLEAN),
            BerObjectContent::Integer(_) => BerTag(BerTag::INTEGER),
            BerObjectContent::BitString(_, _) => BerTag(BerTag::BIT_STRING),
            BerObjectContent::OctetString(_) => BerTag(BerTag::OCTET_STRING),
            BerObjectContent::Null => BerTag(BerTag::NULL),
            BerObjectContent::Enum(_) => BerTag(BerTag::ENUMERATED),
            BerObjectContent::OID(_) => BerTag(BerTag::OID),
            BerObjectContent::RelativeOID(_) => BerTag(BerTag::RELATIVE_OID),
            BerObjectContent::NumericString(_) => BerTag(BerTag::NUMERIC_STRING),
            BerObjectContent::PrintableString(_) => BerTag(BerTag::PRINTABLE_STRING),
            BerObjectContent::IA5String(_) => BerTag(BerTag::IA5_STRING),
            BerObjectContent::UTF8String(_) => BerTag(BerTag::UTF8_STRING),
            BerObjectContent::T61String(_) => BerTag(BerTag::T61_STRING),
            BerObjectContent::BmpString(_) => BerTag(BerTag::BMP_STRING),
            BerObjectContent::Sequence(_) => BerTag(BerTag::SEQUENCE),
            BerObjectContent::SetOf(_) => BerTag(BerTag::SET_OF),
            BerObjectContent::UTCTime(_) => BerTag(BerTag::UTC_TIME),
            BerObjectContent::GeneralizedTime(_) => BerTag(BerTag::GENERALIZED_TIME),
            BerObjectContent::GeneralString(_) => BerTag(BerTag::GENERAL_STRING),
            BerObjectContent::ContextSpecific(t, _) => *t,
            BerObjectContent::Unknown(t, _) => *t,
        }
    }
}

/// What the boolean accessor yields for each content variant.
pub open spec fn spec_as_bool(c: SpecContent) -> Result<bool, BerError> {
    match c {
        SpecContent::Boolean(b) => Ok(b),
        _ => Err(BerError::BerTypeError),
    }
}

/// What the OID accessors yield for each content variant: the identifier of
/// an OID or relative OID.
pub open spec fn spec_as_oid(c: SpecContent) -> Result<Seq<u64>, BerError> {
    match c {
        SpecContent::OID(ids) => Ok(ids),
        SpecContent::RelativeOID(ids) => Ok(ids),
        _ => Err(BerError::BerTypeError),
    }
}

/// What the context-specific accessor yields for each content variant: the
/// inner tag and the optional nested object.
pub open spec fn spec_as_context_specific(c: SpecContent) -> Result<
    (BerTag, Option<Box<SpecObject>>),
    BerError,
> {
    match c {
        SpecContent::ContextSpecific(t, inner) => Ok((t, inner)),
        _ => Err(BerError::BerTypeError),
    }
}

/// What the bit-string accessors yield for each content variant: the raw
/// payload of a BitString.
pub open spec fn spec_as_bitstring(c: SpecContent) -> Result<Seq<u8>, BerError> {
    match c {
        SpecContent::BitString(_, payload) => Ok(payload),
        _ => Err(BerError::BerTypeError),
    }
}

/// What the sequence accessor yields for each content variant: the ordered
/// child list of a Sequence.
pub open spec fn spec_as_sequence(c: SpecContent) -> Result<Seq<SpecObject>, BerError> {
    match c {
        SpecContent::Sequence(els) => Ok(els),
        _ => Err(BerError::BerTypeError),
    }
}

/// What the set accessor yields for each content variant: the ordered child
/// list of a SetOf, decode order preserved.
pub open spec fn spec_as_set(c: SpecContent) -> Result<Seq<SpecObject>, BerError> {
    match c {
        SpecContent::SetOf(els) => Ok(els),
        _ => Err(BerError::BerTypeError),
    }
}

/// What the slice accessor yields for each content variant: the raw bytes of
/// integers, bit strings, octet strings, the string-like variants and
/// unknown payloads; a type mismatch for everything that has no flat byte
/// payload.
pub open spec fn spec_as_slice(c: SpecContent) -> Result<Seq<u8>, BerError> {
    match c {
        SpecContent::Integer(bytes) => Ok(bytes),
        SpecContent::BitString(_, bytes) => Ok(bytes),
        SpecContent::OctetString(bytes) => Ok(bytes),
        SpecContent::NumericString(bytes) => Ok(bytes),
        SpecContent::PrintableString(bytes) => Ok(bytes),
        SpecContent::IA5String(bytes) => Ok(bytes),
        SpecContent::UTF8String(bytes) => Ok(bytes),
        SpecContent::T61String(bytes) => Ok(bytes),
        SpecContent::BmpString(bytes) => Ok(bytes),
        SpecContent::UTCTime(bytes) => Ok(bytes),
        SpecContent::GeneralizedTime(bytes) => Ok(bytes),
        SpecContent::GeneralString(bytes) => Ok(bytes),
        SpecContent::Unknown(_, bytes) => Ok(bytes),
        _ => Err(BerError::BerTypeError),
    }
}

impl BerObjectContent {
    /// Read an unsigned 64-bit value from Integer or Enum content.
    pub fn as_u64(&self) -> (r: Result<u64, BerError>)
        ensures
            r == spec_as_u64(self@),
    {
        match self {
            BerObjectContent::Integer(bytes) => bytes_to_u64(bytes.as_slice()),
            BerObjectContent::Enum(i) => Ok(*i),
            _ => Err(BerError::BerTypeError),
        }
    }

    /// Read an unsigned 32-bit value from Integer or Enum content.
    pub fn as_u32(&self) -> (r: Result<u32, BerError>)
        ensures
            r == spec_as_u32(self@),
    {
        match self {
            BerObjectContent::Integer(bytes) => match bytes_to_u64(bytes.as_slice()) {
                Ok(x) => if x > u32::MAX as u64 {
                    Err(BerError::IntegerTooLarge)
                } else {
                    Ok(x as u32)
                },
                Err(e) => Err(e),
            },
            BerObjectContent::Enum(i) => if *i > u32::MAX as u64 {
                Err(BerError::IntegerTooLarge)
            } else {
                Ok(*i as u32)
            },
            _ => Err(BerError::BerTypeError),
        }
    }

    /// Read a boolean from Boolean content.
    pub fn as_bool(&self) -> (r: Result<bool, BerError>)
        ensures
            r == spec_as_bool(self@),
    {
        match self {
            BerObjectContent::Boolean(b) => Ok(*b),
            _ => Err(BerError::BerTypeError),
        }
    }

    /// Borrow the identifier of OID or RelativeOID content.
    pub fn as_oid(&self) -> (r: Result<&Oid, BerError>)
        ensures
            (r matches Ok(ids) ==> spec_as_oid(self@) == Ok::<Seq<u64>, BerError>(ids@)),
            (r matches Err(e) ==> spec_as_oid(self@) == Err::<Seq<u64>, BerError>(e)),
    {
        match self {
            BerObjectContent::OID(ids) => Ok(ids),
            BerObjectContent::RelativeOID(ids) => Ok(ids),
            _ => Err(BerError::BerTypeError),
        }
    }

    /// Deep-copy the identifier of OID or RelativeOID content.
    pub fn as_oid_val(&self) -> (r: Result<Oid, BerError>)
        ensures
            (r matches Ok(ids) ==> spec_as_oid(self@) == Ok::<Seq<u64>, BerError>(ids@)),
            (r matches Err(e) ==> spec_as_oid(self@) == Err::<Seq<u64>, BerError>(e)),
    {
        match self {
            BerObjectContent::OID(ids) => Ok(ids.clone()),
            BerObjectContent::RelativeOID(ids) => Ok(ids.clone()),
            _ => Err(BerError::BerTypeError),
        }
    }

    /// Read the inner tag and a deep copy of the optional nested object from
    /// ContextSpecific content.
    pub fn as_context_specific(&self) -> (r: Result<(BerTag, Option<Box<BerObject>>), BerError>)
        ensures
            (r matches Ok(p) ==> spec_as_context_specific(self@) == Ok::<
                (BerTag, Option<Box<SpecObject>>),
                BerError,
            >((p.0, view_opt_obj(p.1)))),
            (r matches Err(e) ==> spec_as_context_specific(self@) == Err::<
                (BerTag, Option<Box<SpecObject>>),
                BerError,
            >(e)),
    {
        match self {
            BerObjectContent::ContextSpecific(t, inner) => {
                let copy: Option<Box<BerObject>> = match inner {
                    Some(b) => Some(Box::new(clone_object(b))),
                    None => None,
                };
                Ok((*t, copy))
            },
            _ => Err(BerError::BerTypeError),
        }
    }

    /// Borrow the BitString payload of BitString content.
    pub fn as_bitstring_ref(&self) -> (r: Result<&BitStringObject, BerError>)
        ensures
            (r matches Ok(b) ==> spec_as_bitstring(self@) == Ok::<Seq<u8>, BerError>(b@)),
            (r matches Err(e) ==> spec_as_bitstring(self@) == Err::<Seq<u8>, BerError>(e)),
    {
        match self {
            BerObjectContent::BitString(_, b) => Ok(b),
            _ => Err(BerError::BerTypeError),
        }
    }

    /// Copy the BitString payload of BitString content.
    pub fn as_bitstring(&self) -> (r: Result<BitStringObject, BerError>)
        ensures
            (r matches Ok(b) ==> spec_as_bitstring(self@) == Ok::<Seq<u8>, BerError>(b@)),
            (r matches Err(e) ==> spec_as_bitstring(self@) == Err::<Seq<u8>, BerError>(e)),
    {
        match self {
            BerObjectContent::BitString(_, b) => Ok(b.clone()),
            _ => Err(BerError::BerTypeError),
        }
    }

    /// Borrow the ordered child list of Sequence content.
    pub fn as_sequence(&self) -> (r: Result<&Vec<BerObject>, BerError>)
        ensures
            (r matches Ok(children) ==> spec_as_sequence(self@) == Ok::<
                Seq<SpecObject>,
                BerError,
            >(view_objs(children@))),
            (r matches Err(e) ==> spec_as_sequence(self@) == Err::<Seq<SpecObject>, BerError>(e)),
    {
        match self {
            BerObjectContent::Sequence(children) => Ok(children),
            _ => Err(BerError::BerTypeError),
        }
    }

    /// Borrow the ordered child list of SetOf content, decode order
    /// preserved.
    pub fn as_set(&self) -> (r: Result<&Vec<BerObject>, BerError>)
        ensures
            (r matches Ok(children) ==> spec_as_set(self@) == Ok::<Seq<SpecObject>, BerError>(
                view_objs(children@),
            )),
            (r matches Err(e) ==> spec_as_set(self@) == Err::<Seq<SpecObject>, BerError>(e)),
    {
        match self {
            BerObjectContent::SetOf(children) => Ok(children),
            _ => Err(BerError::BerTypeError),
        }
    }

    /// Borrow the raw byte payload of a flat content variant.
    pub fn as_slice(&self) -> (r: Result<&[u8], BerError>)
        ensures
            (r matches Ok(bytes) ==> spec_as_slice(self@) == Ok::<Seq<u8>, BerError>(bytes@)),
            (r matches Err(e) ==> spec_as_slice(self@) == Err::<Seq<u8>, BerError>(e)),
    {
        match self {
            BerObjectContent::Integer(bytes) => Ok(bytes.as_slice()),
            BerObjectContent::BitString(_, b) => Ok(b.data.as_slice()),
            BerObjectContent::OctetString(bytes) => Ok(bytes.as_slice()),
            BerObjectContent::NumericString(bytes) => Ok(bytes.as_slice()),
            BerObjectContent::PrintableString(bytes) => Ok(bytes.as_slice()),
            BerObjectContent::IA5String(bytes) => Ok(bytes.as_slice()),
            BerObjectContent::UTF8String(bytes) => Ok(bytes.as_slice()),
            BerObjectContent::T61String(bytes) => Ok(bytes.as_slice()),
            BerObjectContent::BmpString(bytes) => Ok(bytes.as_slice()),
            BerObjectContent::UTCTime(bytes) => Ok(bytes.as_slice()),
            BerObjectContent::GeneralizedTime(bytes) => Ok(bytes.as_slice()),
            BerObjectContent::GeneralString(bytes) => Ok(bytes.as_slice()),
            BerObjectContent::Unknown(_, bytes) => Ok(bytes.as_slice()),
            _ => Err(BerError::BerTypeError),
        }
    }
}

/// Deep copy of an object: the copy denotes the same model.
pub fn clone_object(o: &BerObject) -> (r: BerObject)
    ensures
        r@ == o@,
    decreases *o,
{
    BerObject {
        class: o.class,
        structured: o.structured,
        tag: o.tag,
        content: clone_content(&o.content),
    }
}

/// Deep copy of a content payload: the copy denotes the same model.
pub fn clone_content(c: &BerObjectContent) -> (r: BerObjectContent)
    ensures
        r@ == c@,
    decreases *c,
{
    match c {
        BerObjectContent::EndOfContent => BerObjectContent::EndOfContent,
        BerObjectContent::Boolean(b) => BerObjectContent::Boolean(*b),
        BerObjectContent::Integer(bytes) => BerObjectContent::Integer(slice_to_vec(bytes.as_slice())),
        BerObjectContent::BitString(unused, b) => BerObjectContent::BitString(*unused, b.clone()),
        BerObjectContent::OctetString(bytes) => BerObjectContent::OctetString(
            slice_to_vec(bytes.as_slice()),
        ),
        BerObjectContent::Null => BerObjectContent::Null,
        BerObjectContent::Enum(i) => BerObjectContent::Enum(*i),
        BerObjectContent::OID(ids) => BerObjectContent::OID(ids.clone()),
        BerObjectContent::RelativeOID(ids) => BerObjectContent::RelativeOID(ids.clone()),
        BerObjectContent::NumericString(bytes) => BerObjectContent::NumericString(
            slice_to_vec(bytes.as_slice()),
        ),
        BerObjectContent::PrintableString(bytes) => BerObjectContent::PrintableString(
            slice_to_vec(bytes.as_slice()),
        ),
        BerObjectContent::IA5String(bytes) => BerObjectContent::IA5String(
            slice_to_vec(bytes.as_slice()),
        ),
        BerObjectContent::UTF8String(bytes) => BerObjectContent::UTF8String(
            slice_to_vec(bytes.as_slice()),
        ),
        BerObjectContent::T61String(bytes) => BerObjectContent::T61String(
            slice_to_vec(bytes.as_slice()),
        ),
        BerObjectContent::BmpString(bytes) => BerObjectContent::BmpString(
            slice_to_vec(bytes.as_slice()),
        ),
        BerObjectContent::Sequence(children) => BerObjectContent::Sequence(clone_objects(children)),
        BerObjectContent::SetOf(children) => BerObjectContent::SetOf(clone_objects(children)),
        BerObjectContent::UTCTime(bytes) => BerObjectContent::UTCTime(
            slice_to_vec(bytes.as_slice()),
        ),
        BerObjectContent::GeneralizedTime(bytes) => BerObjectContent::GeneralizedTime(
            slice_to_vec(bytes.as_slice()),
        ),
        BerObjectContent::GeneralString(bytes) => BerObjectContent::GeneralString(
            slice_to_vec(bytes.as_slice()),
        ),
        BerObjectContent::ContextSpecific(t, inner) => BerObjectContent::ContextSpecific(
            *t,
            match inner {
                Some(b) => Some(Box::new(clone_object(b))),
                None => None,
            },
        ),
        BerObjectContent::Unknown(t, bytes) => BerObjectContent::Unknown(
            *t,
            slice_to_vec(bytes.as_slice()),
        ),
    }
}

/// Deep copy of a child list: the copy denotes the same model, element by
/// element.
pub fn clone_objects(v: &Vec<BerObject>) -> (r: Vec<BerObject>)
    ensures
        view_objs(r@) == view_objs(v@),
    decreases v@,
{
    let n = v.len();
    let mut out: Vec<BerObject> = Vec::new();
    let mut i: usize = 0;
    while i < n
        invariant
            0 <= i <= n,
            n == v@.len(),
            out@.len() == i,
            forall|j: int| 0 <= j < i ==> view_obj(#[trigger] out@[j]) == view_obj(v@[j]),
        decreases n - i,
    {
        out.push(clone_object(&v[i]));
        i = i + 1;
    }
    proof {
        broadcast use lemma_view_objs_len, lemma_view_objs_index;

        assert(view_objs(out@) =~= view_objs(v@));
    }
    out
}

impl Clone for BerObject {
    /// Deep copy: the copy denotes the same model.
    fn clone(&self) -> (r: Self)
        ensures
            r@ == self@,
    {
        clone_object(self)
    }
}

impl Clone for BerObjectContent {
    /// Deep copy: the copy denotes the same model.
    fn clone(&self) -> (r: Self)
        ensures
            r@ == self@,
    {
        clone_content(self)
    }
}

/// The object that safe composition builds from a content payload: class
/// Universal, the tag the content implies, and the constructed flag set
/// exactly for the two structured types.
pub open spec fn spec_from_content(c: SpecContent) -> SpecObject {
    SpecObject {
        class: 0,
        structured: if c is Sequence || c is SetOf {
            1
        } else {
            0
        },
        tag: spec_tag_of(c),
        content: c,
    }
}

/// The exact object the safe constructor builds from a content value.
pub open spec fn spec_from_obj(c: BerObjectContent) -> BerObject {
    BerObject {
        class: 0,
        structured: if c is Sequence || c is SetOf {
            1
        } else {
            0
        },
        tag: spec_tag_of(c@),
        content: c,
    }
}

impl BerObject {
    /// Build an object from a header and content. Unchecked composition: the
    /// header's class, constructed flag and tag are copied verbatim, so the
    /// tag can deliberately differ from what the content implies. This is the
    /// decoder's escape hatch; every other constructor derives consistent
    /// flags.
    pub fn from_header_and_content(hdr: BerObjectHeader, c: BerObjectContent) -> (r: BerObject)
        ensures
            r@ == (SpecObject {
                class: hdr.class,
                structured: hdr.structured,
                tag: hdr.tag,
                content: c@,
            }),
    {
        BerObject { class: hdr.class, structured: hdr.structured, tag: hdr.tag, content: c }
    }

    /// Build an object from its content alone: class Universal, the tag the
    /// content implies, and the constructed flag set only for Sequence and
    /// SetOf.
    pub fn from_obj(c: BerObjectContent) -> (r: BerObject)
        ensures
            r == spec_from_obj(c),
            r@ == spec_from_content(c@),
    {
        let tag = c.tag();
        let structured: u8 = match &c {
            BerObjectContent::Sequence(_) => 1,
            BerObjectContent::SetOf(_) => 1,
            _ => 0,
        };
        BerObject { class: 0, structured, tag, content: c }
    }

    /// Build an Integer object from a slice holding an encoded integer.
    pub fn from_int_slice(i: &[u8]) -> (r: BerObject)
        ensures
            r@ == spec_from_content(SpecContent::Integer(i@)),
    {
        BerObject {
            class: 0,
            structured: 0,
            tag: BerTag(BerTag::INTEGER),
            content: BerObjectContent::Integer(slice_to_vec(i)),
        }
    }

    /// Build a Sequence object from a vector of objects.
    pub fn from_seq(l: Vec<BerObject>) -> (r: BerObject)
        ensures
            r@ == spec_from_content(SpecContent::Sequence(view_objs(l@))),
    {
        BerObject::from_obj(BerObjectContent::Sequence(l))
    }

    /// Build a SetOf object from a vector of objects.
    pub fn from_set(l: Vec<BerObject>) -> (r: BerObject)
        ensures
            r@ == spec_from_content(SpecContent::SetOf(view_objs(l@))),
    {
        BerObject::from_obj(BerObjectContent::SetOf(l))
    }

    /// Test if object class is Universal.
    pub fn is_universal(&self) -> (r: bool)
        ensures
            r == (self.class == 0),
    {
        self.class == 0
    }

    /// Test if object class is Application.
    pub fn is_application(&self) -> (r: bool)
        ensures
            r == (self.class == 0b01),
    {
        self.class == 0b01
    }

    /// Test if object class is Context-specific.
    pub fn is_contextspecific(&self) -> (r: bool)
        ensures
            r == (self.class == 0b10),
    {
        self.class == 0b10
    }

    /// Test if object class is Private.
    pub fn is_private(&self) -> (r: bool)
        ensures
            r == (self.class == 0b11),
    {
        self.class == 0b11
    }

    /// Test if object is primitive.
    pub fn is_primitive(&self) -> (r: bool)
        ensures
            r == (self.structured == 0),
    {
        self.structured == 0
    }

    /// Test if object is constructed.
    pub fn is_constructed(&self) -> (r: bool)
        ensures
            r == (self.structured == 1),
    {
        self.structured == 1
    }
}

impl BerObject {
    /// Read an unsigned 64-bit value from an Integer or Enum object.
    pub fn as_u64(&self) -> (r: Result<u64, BerError>)
        ensures
            r == spec_as_u64(self@.content),
    {
        self.content.as_u64()
    }

    /// Read an unsigned 32-bit value from an Integer or Enum object.
    pub fn as_u32(&self) -> (r: Result<u32, BerError>)
        ensures
            r == spec_as_u32(self@.content),
    {
        self.content.as_u32()
    }

    /// Read a boolean from a Boolean object.
    pub fn as_bool(&self) -> (r: Result<bool, BerError>)
        ensures
            r == spec_as_bool(self@.content),
    {
        self.content.as_bool()
    }

    /// Borrow the identifier of an OID or RelativeOID object.
    pub fn as_oid(&self) -> (r: Result<&Oid, BerError>)
        ensures
            (r matches Ok(ids) ==> spec_as_oid(self@.content) == Ok::<Seq<u64>, BerError>(ids@)),
            (r matches Err(e) ==> spec_as_oid(self@.content) == Err::<Seq<u64>, BerError>(e)),
    {
        self.content.as_oid()
    }

    /// Deep-copy the identifier of an OID or RelativeOID object.
    pub fn as_oid_val(&self) -> (r: Result<Oid, BerError>)
        ensures
            (r matches Ok(ids) ==> spec_as_oid(self@.content) == Ok::<Seq<u64>, BerError>(ids@)),
            (r matches Err(e) ==> spec_as_oid(self@.content) == Err::<Seq<u64>, BerError>(e)),
    {
        self.content.as_oid_val()
    }

    /// Read the inner tag and a deep copy of the optional nested object from
    /// a context-specific object.
    pub fn as_context_specific(&self) -> (r: Result<(BerTag, Option<Box<BerObject>>), BerError>)
        ensures
            (r matches Ok(p) ==> spec_as_context_specific(self@.content) == Ok::<
                (BerTag, Option<Box<SpecObject>>),
                BerError,
            >((p.0, view_opt_obj(p.1)))),
            (r matches Err(e) ==> spec_as_context_specific(self@.content) == Err::<
                (BerTag, Option<Box<SpecObject>>),
                BerError,
            >(e)),
    {
        self.content.as_context_specific()
    }

    /// Borrow the BitString payload of a BitString object.
    pub fn as_bitstring_ref(&self) -> (r: Result<&BitStringObject, BerError>)
        ensures
            (r matches Ok(b) ==> spec_as_bitstring(self@.content) == Ok::<Seq<u8>, BerError>(b@)),
            (r matches Err(e) ==> spec_as_bitstring(self@.content) == Err::<Seq<u8>, BerError>(e)),
    {
        self.content.as_bitstring_ref()
    }

    /// Copy the BitString payload of a BitString object.
    pub fn as_bitstring(&self) -> (r: Result<BitStringObject, BerError>)
        ensures
            (r matches Ok(b) ==> spec_as_bitstring(self@.content) == Ok::<Seq<u8>, BerError>(b@)),
            (r matches Err(e) ==> spec_as_bitstring(self@.content) == Err::<Seq<u8>, BerError>(e)),
    {
        self.content.as_bitstring()
    }

    /// Borrow the ordered child list of a Sequence object.
    pub fn as_sequence(&self) -> (r: Result<&Vec<BerObject>, BerError>)
        ensures
            (r matches Ok(children) ==> spec_as_sequence(self@.content) == Ok::<
                Seq<SpecObject>,
                BerError,
            >(view_objs(children@))),
            (r matches Err(e) ==> spec_as_sequence(self@.content) == Err::<
                Seq<SpecObject>,
                BerError,
            >(e)),
    {
        self.content.as_sequence()
    }

    /// Borrow the ordered child list of a SetOf object, decode order
    /// preserved.
    pub fn as_set(&self) -> (r: Result<&Vec<BerObject>, BerError>)
        ensures
            (r matches Ok(children) ==> spec_as_set(self@.content) == Ok::<
                Seq<SpecObject>,
                BerError,
            >(view_objs(children@))),
            (r matches Err(e) ==> spec_as_set(self@.content) == Err::<Seq<SpecObject>, BerError>(
                e,
            )),
    {
        self.content.as_set()
    }

    /// Borrow the raw byte payload of a flat object.
    pub fn as_slice(&self) -> (r: Result<&[u8], BerError>)
        ensures
            (r matches Ok(bytes) ==> spec_as_slice(self@.content) == Ok::<Seq<u8>, BerError>(
                bytes@,
            )),
            (r matches Err(e) ==> spec_as_slice(self@.content) == Err::<Seq<u8>, BerError>(e)),
    {
        self.content.as_slice()
    }
}

/// Build an object from an OID, as safe composition does.
impl From<Oid> for BerObject {
    fn from(oid: Oid) -> (r: BerObject) {
        BerObject::from_obj(BerObjectContent::OID(oid))
    }
}

impl vstd::std_specs::convert::FromSpecImpl<Oid> for BerObject {
    open spec fn obeys_from_spec() -> bool {
        true
    }

    open spec fn from_spec(oid: Oid) -> BerObject {
        spec_from_obj(BerObjectContent::OID(oid))
    }
}

/// Build an object from a content payload, as safe composition does.
impl From<BerObjectContent> for BerObject {
    fn from(c: BerObjectContent) -> (r: BerObject) {
        BerObject::from_obj(c)
    }
}

impl vstd::std_specs::convert::FromSpecImpl<BerObjectContent> for BerObject {
    open spec fn obeys_from_spec() -> bool {
        true
    }

    open spec fn from_spec(c: BerObjectContent) -> BerObject {
        spec_from_obj(c)
    }
}

/// Round trip: composing an object from an OID payload and extracting the
/// owned identifier yields the identifier unchanged.
pub proof fn lemma_oid_round_trip(ids: Seq<u64>)
    ensures
        spec_as_oid(spec_from_content(SpecContent::OID(ids)).content) == Ok::<Seq<u64>, BerError>(
            ids,
        ),
{
}

/// Every typed accessor, invoked against a content variant it does not
/// support, yields a type mismatch — never a zero or default value.
pub proof fn lemma_mismatch_yields_type_error(c: SpecContent)
    ensures
        !(c is Boolean) ==> spec_as_bool(c) == Err::<bool, BerError>(BerError::BerTypeError),
        !(c is Integer) && !(c is Enum) ==> spec_as_u64(c) == Err::<u64, BerError>(
            BerError::BerTypeError,
        ),
        !(c is Integer) && !(c is Enum) ==> spec_as_u32(c) == Err::<u32, BerError>(
            BerError::BerTypeError,
        ),
        !(c is OID) && !(c is RelativeOID) ==> spec_as_oid(c) == Err::<Seq<u64>, BerError>(
            BerError::BerTypeError,
        ),
        !(c is ContextSpecific) ==> spec_as_context_specific(c) == Err::<
            (BerTag, Option<Box<SpecObject>>),
            BerError,
        >(BerError::BerTypeError),
        !(c is BitString) ==> spec_as_bitstring(c) == Err::<Seq<u8>, BerError>(
            BerError::BerTypeError,
        ),
        !(c is Sequence) ==> spec_as_sequence(c) == Err::<Seq<SpecObject>, BerError>(
            BerError::BerTypeError,
        ),
        !(c is SetOf) ==> spec_as_set(c) == Err::<Seq<SpecObject>, BerError>(
            BerError::BerTypeError,
        ),
{
}

/// Safe composition always yields the tag the content implies, the
/// constructed flag exactly for the two structured types, and class
/// Universal, with the content attached unchanged.
pub proof fn lemma_from_content_consistent(c: SpecContent)
    ensures
        spec_from_content(c).tag == spec_tag_of(c),
        spec_from_content(c).structured == 1 <==> (c is Sequence || c is SetOf),
        spec_from_content(c).class == 0,
        spec_from_content(c).content == c,
{
}

} // verus!
