//! The BER object layer: tags, headers, content variants, typed accessors,
//! and traversal over nested constructed content.

pub mod bigint;
pub mod bitstring;
pub mod integer;
pub mod iter;
pub mod model;
pub mod object;
pub mod tag;

pub use bigint::{bigint_plus_from_be, biguint_from_be};
pub use bitstring::BitStringObject;
pub use integer::{be_value, bytes_to_u64, spec_as_u32, spec_as_u64};
pub use iter::{consuming_item, ref_item, BerObjectIntoIterator, BerObjectRefIterator};
pub use model::{SpecContent, SpecObject};
pub use object::{BerObject, BerObjectContent, BerObjectHeader};
pub use tag::BerTag;
