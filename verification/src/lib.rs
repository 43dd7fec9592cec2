//! Typed, in-memory object model for values decoded from BER/DER
//! (tag-length-value) encodings: the tagged content representation, the
//! header/content composition rules, the fallible typed accessors, and the
//! traversal and indexing semantics over nested constructed content.

pub mod ber;
pub mod error;
pub mod oid;
