//! Tests of the object model: construction, typed accessors, and the error
//! taxonomy.

use der_parser::ber::{BerObject, BerObjectContent, BerObjectHeader, BerTag, BitStringObject};
use der_parser::error::BerError;
use der_parser::oid::Oid;

#[test]
fn test_der_as_u64() {
    let der_obj = BerObject::from_int_slice(b"\x01\x00\x02");
    assert_eq!(der_obj.as_u64(), Ok(0x10002));
}

#[test]
fn test_der_from_oid() {
    let obj: BerObject = Oid::from(&[1, 2]).into();
    let expected = BerObject::from_obj(BerObjectContent::OID(Oid::from(&[1, 2])));

    assert_eq!(obj, expected);
}

#[test]
fn test_der_bistringobject() {
    let obj = BitStringObject {
        data: vec![0x0f, 0x00, 0x40],
    };
    assert!(!obj.is_set(0));
    assert!(obj.is_set(7));
    assert!(!obj.is_set(9));
    assert!(obj.is_set(17));
}

#[test]
fn test_der_bistringobject_asref() {
    let b: &[u8] = &[0x0f, 0x00, 0x40];
    let obj = BitStringObject { data: b.to_vec() };
    assert_eq!(obj.as_ref(), b);
}

#[test]
fn bitstring_out_of_range_bit_reads_clear() {
    let obj = BitStringObject {
        data: vec![0x0f, 0x00, 0x40],
    };
    assert!(!obj.is_set(1000));
}

#[test]
fn u64_of_empty_payload_is_zero() {
    let der_obj = BerObject::from_int_slice(b"");
    assert_eq!(der_obj.as_u64(), Ok(0));
}

#[test]
fn u64_of_eight_bytes_is_exact() {
    let der_obj = BerObject::from_int_slice(b"\xff\xff\xff\xff\xff\xff\xff\xff");
    assert_eq!(der_obj.as_u64(), Ok(u64::MAX));
}

#[test]
fn u64_of_nine_significant_bytes_is_too_large() {
    let der_obj = BerObject::from_int_slice(b"\x01\x00\x00\x00\x00\x00\x00\x00\x00");
    assert_eq!(der_obj.as_u64(), Err(BerError::IntegerTooLarge));
}

#[test]
fn u64_ignores_leading_zero_bytes() {
    let der_obj = BerObject::from_int_slice(b"\x00\x00\x00\x00\x00\x00\x00\x00\x2a");
    assert_eq!(der_obj.as_u64(), Ok(0x2a));
}

#[test]
fn u32_fails_where_u64_succeeds() {
    let der_obj = BerObject::from_int_slice(b"\x01\x00\x00\x00\x02");
    assert_eq!(der_obj.as_u64(), Ok(0x1_0000_0002));
    assert_eq!(der_obj.as_u32(), Err(BerError::IntegerTooLarge));
}

#[test]
fn u32_of_small_integer_succeeds() {
    let der_obj = BerObject::from_int_slice(b"\x01\x00\x01");
    assert_eq!(der_obj.as_u32(), Ok(0x10001));
}

#[test]
fn enum_reads_as_u64_and_bounded_u32() {
    let small = BerObject::from_obj(BerObjectContent::Enum(17));
    assert_eq!(small.as_u64(), Ok(17));
    assert_eq!(small.as_u32(), Ok(17));
    let large = BerObject::from_obj(BerObjectContent::Enum(0x1_0000_0000));
    assert_eq!(large.as_u64(), Ok(0x1_0000_0000));
    assert_eq!(large.as_u32(), Err(BerError::IntegerTooLarge));
}

#[test]
fn from_obj_derives_tag_and_constructed_flag() {
    let b = BerObject::from_obj(BerObjectContent::Boolean(true));
    assert_eq!(b.tag, BerTag(BerTag::BOOLEAN));
    assert!(b.is_primitive());
    assert!(b.is_universal());

    let seq = BerObject::from_obj(BerObjectContent::Sequence(vec![]));
    assert_eq!(seq.tag, BerTag(BerTag::SEQUENCE));
    assert!(seq.is_constructed());

    let set = BerObject::from_obj(BerObjectContent::SetOf(vec![]));
    assert_eq!(set.tag, BerTag(BerTag::SET_OF));
    assert!(set.is_constructed());
}

#[test]
fn from_header_and_content_copies_header_verbatim() {
    let hdr = BerObjectHeader {
        class: 0b10,
        structured: 0,
        tag: BerTag(BerTag::INTEGER),
        len: 1,
    };
    // Deliberately inconsistent: Integer tag over Boolean content. The
    // unchecked constructor must keep both as given.
    let obj = BerObject::from_header_and_content(hdr, BerObjectContent::Boolean(true));
    assert_eq!(obj.tag, BerTag(BerTag::INTEGER));
    assert_eq!(obj.class, 0b10);
    assert!(obj.is_primitive());
    assert_eq!(obj.as_bool(), Ok(true));
}

#[test]
fn header_predicates_follow_fields() {
    let hdr = BerObjectHeader {
        class: 0b10,
        structured: 1,
        tag: BerTag(0),
        len: 0,
    };
    assert!(!hdr.is_universal());
    assert!(!hdr.is_application());
    assert!(hdr.is_contextspecific());
    assert!(!hdr.is_private());
    assert!(!hdr.is_primitive());
    assert!(hdr.is_constructed());
}

#[test]
fn oid_round_trip_through_object() {
    let obj = BerObject::from_obj(BerObjectContent::OID(Oid::from(&[1, 2, 840, 113549])));
    assert_eq!(obj.as_oid_val(), Ok(Oid::from(&[1, 2, 840, 113549])));
    assert_eq!(obj.as_oid(), Ok(&Oid::from(&[1, 2, 840, 113549])));
}

#[test]
fn relative_oid_reads_through_oid_accessors() {
    let obj = BerObject::from_obj(BerObjectContent::RelativeOID(Oid::from(&[4, 5, 6])));
    assert_eq!(obj.as_oid_val(), Ok(Oid::from(&[4, 5, 6])));
}

#[test]
fn bitstring_accessors_return_payload() {
    let obj = BerObject::from_obj(BerObjectContent::BitString(
        4,
        BitStringObject {
            data: vec![0x0f, 0x00, 0x40],
        },
    ));
    let b = obj.as_bitstring_ref().unwrap();
    assert_eq!(b.data, vec![0x0f, 0x00, 0x40]);
    let owned = obj.as_bitstring().unwrap();
    assert_eq!(owned.data, vec![0x0f, 0x00, 0x40]);
    assert_eq!(obj.as_slice(), Ok(&[0x0f, 0x00, 0x40][..]));
}

#[test]
fn context_specific_returns_tag_and_deep_copy() {
    let inner = BerObject::from_int_slice(b"\x2a");
    let obj = BerObject::from_obj(BerObjectContent::ContextSpecific(
        BerTag(0),
        Some(Box::new(inner)),
    ));
    let (tag, copy) = obj.as_context_specific().unwrap();
    assert_eq!(tag, BerTag(0));
    assert_eq!(*copy.unwrap(), BerObject::from_int_slice(b"\x2a"));

    let empty = BerObject::from_obj(BerObjectContent::ContextSpecific(BerTag(1), None));
    let (tag2, copy2) = empty.as_context_specific().unwrap();
    assert_eq!(tag2, BerTag(1));
    assert!(copy2.is_none());
}

#[test]
fn as_slice_accepts_flat_payloads_only() {
    let octets = BerObject::from_obj(BerObjectContent::OctetString(vec![1, 2, 3]));
    assert_eq!(octets.as_slice(), Ok(&[1, 2, 3][..]));
    let printable = BerObject::from_obj(BerObjectContent::PrintableString(b"abc".to_vec()));
    assert_eq!(printable.as_slice(), Ok(&b"abc"[..]));
    let unknown = BerObject::from_obj(BerObjectContent::Unknown(BerTag(0x2f), vec![9]));
    assert_eq!(unknown.as_slice(), Ok(&[9][..]));

    let boolean = BerObject::from_obj(BerObjectContent::Boolean(false));
    assert_eq!(boolean.as_slice(), Err(BerError::BerTypeError));
    let null = BerObject::from_obj(BerObjectContent::Null);
    assert_eq!(null.as_slice(), Err(BerError::BerTypeError));
    let seq = BerObject::from_obj(BerObjectContent::Sequence(vec![]));
    assert_eq!(seq.as_slice(), Err(BerError::BerTypeError));
    let oid = BerObject::from_obj(BerObjectContent::OID(Oid::from(&[1, 2])));
    assert_eq!(oid.as_slice(), Err(BerError::BerTypeError));
}

#[test]
fn mismatched_accessors_return_type_error() {
    let int_obj = BerObject::from_int_slice(b"\x01");
    assert_eq!(int_obj.as_bool(), Err(BerError::BerTypeError));
    assert_eq!(int_obj.as_oid(), Err(BerError::BerTypeError));
    assert_eq!(int_obj.as_oid_val(), Err(BerError::BerTypeError));
    assert_eq!(int_obj.as_bitstring_ref(), Err(BerError::BerTypeError));
    assert_eq!(int_obj.as_bitstring(), Err(BerError::BerTypeError));
    assert_eq!(int_obj.as_context_specific(), Err(BerError::BerTypeError));
    assert!(int_obj.as_sequence().is_err());
    assert!(int_obj.as_set().is_err());

    let bool_obj = BerObject::from_obj(BerObjectContent::Boolean(true));
    assert_eq!(bool_obj.as_u64(), Err(BerError::BerTypeError));
    assert_eq!(bool_obj.as_u32(), Err(BerError::BerTypeError));

    let seq_obj = BerObject::from_obj(BerObjectContent::Sequence(vec![]));
    assert_eq!(seq_obj.as_set().unwrap_err(), BerError::BerTypeError);
    let set_obj = BerObject::from_obj(BerObjectContent::SetOf(vec![]));
    assert_eq!(set_obj.as_sequence().unwrap_err(), BerError::BerTypeError);
}

#[test]
fn sequence_and_set_accessors_return_children_in_order() {
    let children = vec![
        BerObject::from_int_slice(b"\x01"),
        BerObject::from_obj(BerObjectContent::Boolean(true)),
    ];
    let seq = BerObject::from_seq(children);
    let got = seq.as_sequence().unwrap();
    assert_eq!(got.len(), 2);
    assert_eq!(got[0], BerObject::from_int_slice(b"\x01"));
    assert_eq!(got[1], BerObject::from_obj(BerObjectContent::Boolean(true)));

    let set = BerObject::from_set(vec![BerObject::from_int_slice(b"\x02")]);
    let got = set.as_set().unwrap();
    assert_eq!(got.len(), 1);
    assert_eq!(got[0], BerObject::from_int_slice(b"\x02"));
}

#[test]
fn bytes_to_u64_reads_big_endian() {
    assert_eq!(der_parser::ber::bytes_to_u64(b"\x12\x34"), Ok(0x1234));
    assert_eq!(der_parser::ber::bytes_to_u64(b""), Ok(0));
    assert_eq!(
        der_parser::ber::bytes_to_u64(b"\xff\x00\x00\x00\x00\x00\x00\x00\x00"),
        Err(BerError::IntegerTooLarge)
    );
}

#[test]
fn tag_registry_names_known_codes() {
    assert_eq!(BerTag(BerTag::SEQUENCE).name(), Some("Sequence"));
    assert_eq!(BerTag(BerTag::BOOLEAN).name(), Some("Boolean"));
    assert_eq!(BerTag(BerTag::INVALID).name(), Some("Invalid"));
    assert_eq!(BerTag(0x2f).name(), None);
}

#[test]
fn content_tag_matches_registry() {
    assert_eq!(BerObjectContent::Null.tag(), BerTag(BerTag::NULL));
    assert_eq!(BerObjectContent::EndOfContent.tag(), BerTag(BerTag::END_OF_CONTENT));
    assert_eq!(BerObjectContent::Enum(1).tag(), BerTag(BerTag::ENUMERATED));
    assert_eq!(
        BerObjectContent::UTCTime(b"991231235959Z".to_vec()).tag(),
        BerTag(BerTag::UTC_TIME)
    );
    assert_eq!(
        BerObjectContent::Unknown(BerTag(0x2f), vec![]).tag(),
        BerTag(0x2f)
    );
    assert_eq!(
        BerObjectContent::ContextSpecific(BerTag(3), None).tag(),
        BerTag(3)
    );
}
