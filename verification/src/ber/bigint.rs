//! Arbitrary-precision integer conversion, an optional capability over
//! Integer content.
//!
//! The conversion itself is `num_bigint`'s work; this module only routes an
//! Integer payload to it, using the same big-endian convention as the 64-bit
//! and 32-bit accessors. The two `uninterp` functions name what the calls
//! return: the same bytes always yield the same value, and nothing more is
//! assumed of them.

use vstd::prelude::*;

verus! {

use crate::ber::model::SpecContent;
use crate::ber::object::{BerObject, BerObjectContent};

#[verifier::external_type_specification]
#[verifier::external_body]
pub struct ExBigInt(num_bigint::BigInt);

#[verifier::external_type_specification]
#[verifier::external_body]
pub struct ExBigUint(num_bigint::BigUint);

/// The signed arbitrary-precision value `num_bigint::BigInt::from_bytes_be`
/// builds, with plus sign, from big-endian magnitude bytes.
pub uninterp spec fn bigint_plus_from_be(bytes: Seq<u8>) -> num_bigint::BigInt;

/// The unsigned arbitrary-precision value
/// `num_bigint::BigUint::from_bytes_be` builds from big-endian bytes.
pub uninterp spec fn biguint_from_be(bytes: Seq<u8>) -> num_bigint::BigUint;

/// Relies on num_bigint::BigInt::from_bytes_be: the result is a function of
/// the sign and the bytes alone; with the sign fixed to plus it is named by
/// `bigint_plus_from_be`.
#[verifier::external_body]
fn bigint_from_bytes_be_plus(bytes: &[u8]) -> (r: num_bigint::BigInt)
    ensures
        r == bigint_plus_from_be(bytes@),
{
    num_bigint::BigInt::from_bytes_be(num_bigint::Sign::Plus, bytes)
}

/// Relies on num_bigint::BigUint::from_bytes_be: the result is a function of
/// the bytes alone, named by `biguint_from_be`.
#[verifier::external_body]
fn biguint_from_bytes_be(bytes: &[u8]) -> (r: num_bigint::BigUint)
    ensures
        r == biguint_from_be(bytes@),
{
    num_bigint::BigUint::from_bytes_be(bytes)
}

impl BerObject {
    /// Reinterpret an Integer payload as a signed arbitrary-precision value,
    /// big-endian and non-negative; any other content yields nothing.
    pub fn as_bigint(&self) -> (r: Option<num_bigint::BigInt>)
        ensures
            (self@.content matches SpecContent::Integer(bytes) ==> r == Some(
                bigint_plus_from_be(bytes),
            )),
            (!(self@.content is Integer) ==> r is None),
    {
        match &self.content {
            BerObjectContent::Integer(bytes) => Some(bigint_from_bytes_be_plus(bytes.as_slice())),
            _ => None,
        }
    }

    /// Reinterpret an Integer payload as an unsigned arbitrary-precision
    /// value, big-endian; any other content yields nothing.
    pub fn as_biguint(&self) -> (r: Option<num_bigint::BigUint>)
        ensures
            (self@.content matches SpecContent::Integer(bytes) ==> r == Some(
                biguint_from_be(bytes),
            )),
            (!(self@.content is Integer) ==> r is None),
    {
        match &self.content {
            BerObjectContent::Integer(bytes) => Some(biguint_from_bytes_be(bytes.as_slice())),
            _ => None,
        }
    }
}

} // verus!
