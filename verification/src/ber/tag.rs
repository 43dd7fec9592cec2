//! Numeric type-codes (X.680 tags) with a registry of the known
//! universal-class codes.
//!
//! Any numeric value is a legal tag; the registry below only gives the known
//! universal-class codes a name. Identity is by numeric value.

use vstd::prelude::*;

verus! {

/// A numeric type-code. X.690 does not bound the tag size; a `u32` covers
/// every code in practical use.
#[derive(Clone, Copy, Debug, PartialEq, Eq, Structural, Hash)]
pub struct BerTag(pub u32);

/// Registry of the known universal-class codes.
impl BerTag {
    pub const END_OF_CONTENT: u32 = 0x0;

    pub const BOOLEAN: u32 = 0x1;

    pub const INTEGER: u32 = 0x2;

    pub const BIT_STRING: u32 = 0x3;

    pub const OCTET_STRING: u32 = 0x4;

    pub const NULL: u32 = 0x05;

    pub const OID: u32 = 0x06;

    pub const OBJ_DESCRIPTOR: u32 = 0x07;

    pub const EXTERNAL: u32 = 0x08;

    pub const REAL_TYPE: u32 = 0x09;

    pub const ENUMERATED: u32 = 0xa;

    pub const EMBEDDED_PDV: u32 = 0xb;

    pub const UTF8_STRING: u32 = 0xc;

    pub const RELATIVE_OID: u32 = 0xd;

    pub const SEQUENCE: u32 = 0x10;

    pub const SET_OF: u32 = 0x11;

    pub const NUMERIC_STRING: u32 = 0x12;

    pub const PRINTABLE_STRING: u32 = 0x13;

    pub const T61_STRING: u32 = 0x14;

    pub const IA5_STRING: u32 = 0x16;

    pub const UTC_TIME: u32 = 0x17;

    pub const GENERALIZED_TIME: u32 = 0x18;

    pub const GENERAL_STRING: u32 = 0x1b;

    pub const BMP_STRING: u32 = 0x1e;

    pub const INVALID: u32 = 0xff;
}

/// Whether a numeric code is in the registry of known universal-class codes.
pub open spec fn is_known_code(code: u32) -> bool {
    spec_code_name(code) is Some
}

/// The symbolic name of each known universal-class code; any other code has
/// none and renders by its raw number.
pub open spec fn spec_code_name(code: u32) -> Option<Seq<char>> {
    if code == BerTag::END_OF_CONTENT {
        Some("EndOfContent"@)
    } else if code == BerTag::BOOLEAN {
        Some("Boolean"@)
    } else if code == BerTag::INTEGER {
        Some("Integer"@)
    } else if code == BerTag::BIT_STRING {
        Some("BitString"@)
    } else if code == BerTag::OCTET_STRING {
        Some("OctetString"@)
    } else if code == BerTag::NULL {
        Some("Null"@)
    } else if code == BerTag::OID {
        Some("Oid"@)
    } else if code == BerTag::OBJ_DESCRIPTOR {
        Some("ObjDescriptor"@)
    } else if code == BerTag::EXTERNAL {
        Some("External"@)
    } else if code == BerTag::REAL_TYPE {
        Some("RealType"@)
    } else if code == BerTag::ENUMERATED {
        Some("Enumerated"@)
    } else if code == BerTag::EMBEDDED_PDV {
        Some("EmbeddedPdv"@)
    } else if code == BerTag::UTF8_STRING {
        Some("Utf8String"@)
    } else if code == BerTag::RELATIVE_OID {
        Some("RelativeOid"@)
    } else if code == BerTag::SEQUENCE {
        Some("Sequence"@)
    } else if code == BerTag::SET_OF {
        Some("SetOf"@)
    } else if code == BerTag::NUMERIC_STRING {
        Some("NumericString"@)
    } else if code == BerTag::PRINTABLE_STRING {
        Some("PrintableString"@)
    } else if code == BerTag::T61_STRING {
        Some("T61String"@)
    } else if code == BerTag::IA5_STRING {
        Some("Ia5String"@)
    } else if code == BerTag::UTC_TIME {
        Some("UtcTime"@)
    } else if code == BerTag::GENERALIZED_TIME {
        Some("GeneralizedTime"@)
    } else if code == BerTag::GENERAL_STRING {
        Some("GeneralString"@)
    } else if code == BerTag::BMP_STRING {
        Some("BmpString"@)
    } else if code == BerTag::INVALID {
        Some("Invalid"@)
    } else {
        None
    }
}

impl BerTag {
    /// The registry's name for this code, if it is a known universal-class
    /// code.
    pub fn name(&self) -> (r: Option<&'static str>)
        ensures
            (r matches Some(n) ==> spec_code_name(self.0) == Some(n@)),
            (r is None ==> !is_known_code(self.0)),
    {
        let code = self.0;
        if code == BerTag::END_OF_CONTENT {
            Some("EndOfContent")
        } else if code == BerTag::BOOLEAN {
            Some("Boolean")
        } else if code == BerTag::INTEGER {
            Some("Integer")
        } else if code == BerTag::BIT_STRING {
            Some("BitString")
        } else if code == BerTag::OCTET_STRING {
            Some("OctetString")
        } else if code == BerTag::NULL {
            Some("Null")
        } else if code == BerTag::OID {
            Some("Oid")
        } else if code == BerTag::OBJ_DESCRIPTOR {
            Some("ObjDescriptor")
        } else if code == BerTag::EXTERNAL {
            Some("External")
        } else if code == BerTag::REAL_TYPE {
            Some("RealType")
        } else if code == BerTag::ENUMERATED {
            Some("Enumerated")
        } else if code == BerTag::EMBEDDED_PDV {
            Some("EmbeddedPdv")
        } else if code == BerTag::UTF8_STRING {
            Some("Utf8String")
        } else if code == BerTag::RELATIVE_OID {
            Some("RelativeOid")
        } else if code == BerTag::SEQUENCE {
            Some("Sequence")
        } else if code == BerTag::SET_OF {
            Some("SetOf")
        } else if code == BerTag::NUMERIC_STRING {
            Some("NumericString")
        } else if code == BerTag::PRINTABLE_STRING {
            Some("PrintableString")
        } else if code == BerTag::T61_STRING {
            Some("T61String")
        } else if code == BerTag::IA5_STRING {
            Some("Ia5String")
        } else if code == BerTag::UTC_TIME {
            Some("UtcTime")
        } else if code == BerTag::GENERALIZED_TIME {
            Some("GeneralizedTime")
        } else if code == BerTag::GENERAL_STRING {
            Some("GeneralString")
        } else if code == BerTag::BMP_STRING {
            Some("BmpString")
        } else if code == BerTag::INVALID {
            Some("Invalid")
        } else {
            None
        }
    }
}

} // verus!
