//! Tests of the traversal layer: consuming iteration, non-owning iteration,
//! and positional indexing, including the leaf-as-singleton asymmetry.

use der_parser::ber::{BerObject, BerObjectContent};

#[test]
fn test_der_seq_iter() {
    let der_obj = BerObject::from_obj(BerObjectContent::Sequence(vec![
        BerObject::from_int_slice(b"\x01\x00\x01"),
        BerObject::from_int_slice(b"\x01\x00\x00"),
    ]));
    let expected_values = vec![
        BerObject::from_int_slice(b"\x01\x00\x01"),
        BerObject::from_int_slice(b"\x01\x00\x00"),
    ];

    let mut idx = 0;
    let mut it = der_obj.ref_iter();
    while let Some(v) = it.next() {
        assert_eq!((*v), expected_values[idx]);
        idx += 1;
    }
    assert_eq!(idx, expected_values.len());
}

#[test]
fn consuming_iteration_yields_sequence_elements_in_order() {
    let der_obj = BerObject::from_obj(BerObjectContent::Sequence(vec![
        BerObject::from_int_slice(b"\x01"),
        BerObject::from_int_slice(b"\x02"),
    ]));
    let mut it = der_obj.into_iter();
    assert_eq!(it.next(), Some(BerObject::from_int_slice(b"\x01")));
    assert_eq!(it.next(), Some(BerObject::from_int_slice(b"\x02")));
    assert_eq!(it.next(), None);
}

#[test]
fn consuming_iteration_yields_leaf_once() {
    let der_obj = BerObject::from_int_slice(b"\x2a");
    let mut it = der_obj.into_iter();
    assert_eq!(it.next(), Some(BerObject::from_int_slice(b"\x2a")));
    assert_eq!(it.next(), None);
    assert_eq!(it.next(), None);
}

#[test]
fn iteration_asymmetry_on_the_same_leaf() {
    let leaf = BerObject::from_int_slice(b"\x2a");

    let mut borrowed = leaf.ref_iter();
    assert_eq!(borrowed.next(), None);

    let mut consumed = leaf.into_iter();
    assert_eq!(consumed.next(), Some(BerObject::from_int_slice(b"\x2a")));
    assert_eq!(consumed.next(), None);
}

#[test]
fn ref_iteration_walks_set_children() {
    let set = BerObject::from_set(vec![
        BerObject::from_obj(BerObjectContent::Boolean(false)),
        BerObject::from_int_slice(b"\x07"),
    ]);
    let mut it = set.ref_iter();
    assert_eq!(
        it.next(),
        Some(&BerObject::from_obj(BerObjectContent::Boolean(false)))
    );
    assert_eq!(it.next(), Some(&BerObject::from_int_slice(b"\x07")));
    assert_eq!(it.next(), None);
}

#[test]
fn indexing_returns_the_child_at_the_position() {
    let seq = BerObject::from_seq(vec![
        BerObject::from_int_slice(b"\x01"),
        BerObject::from_int_slice(b"\x02"),
    ]);
    assert_eq!(*seq.index(0), BerObject::from_int_slice(b"\x01"));
    assert_eq!(*seq.index(1), BerObject::from_int_slice(b"\x02"));
}
