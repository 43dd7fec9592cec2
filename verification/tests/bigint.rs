//! Tests of the arbitrary-precision integer conversion.

use der_parser::ber::{BerObject, BerObjectContent};

#[test]
fn test_der_to_bigint() {
    let obj = BerObject::from_obj(BerObjectContent::Integer(b"\x01\x00\x01".to_vec()));
    let expected = ::num_bigint::BigInt::from(0x10001);

    assert_eq!(obj.as_bigint(), Some(expected));
}

#[test]
fn test_der_to_biguint() {
    let obj = BerObject::from_obj(BerObjectContent::Integer(b"\x01\x00\x01".to_vec()));
    let expected = ::num_bigint::BigUint::from(0x10001 as u32);

    assert_eq!(obj.as_biguint(), Some(expected));
}

#[test]
fn bigint_of_non_integer_is_none() {
    let obj = BerObject::from_obj(BerObjectContent::Boolean(true));
    assert_eq!(obj.as_bigint(), None);
    assert_eq!(obj.as_biguint(), None);
}

#[test]
fn bigint_reads_wide_integers() {
    // Ten bytes: too wide for the 64-bit accessor, exact for the
    // arbitrary-precision one.
    let obj = BerObject::from_obj(BerObjectContent::Integer(
        b"\x01\x00\x00\x00\x00\x00\x00\x00\x00\x00".to_vec(),
    ));
    assert!(obj.as_u64().is_err());
    let expected = ::num_bigint::BigUint::from(1u8) << 72;
    assert_eq!(obj.as_biguint(), Some(expected));
}
