//! Bit-addressable view over a raw byte payload.

use vstd::prelude::*;

verus! {

use vstd::slice::slice_to_vec;

/// A bit string as its raw byte payload. Bit `n` lives in byte `n / 8`, at
/// position `7 - (n % 8)` counting from the most-significant bit.
#[derive(Debug, PartialEq, Eq)]
pub struct BitStringObject {
    pub data: Vec<u8>,
}

impl View for BitStringObject {
    type V = Seq<u8>;

    open spec fn view(&self) -> Seq<u8> {
        self.data@
    }
}

/// Whether bit `bitnum` of the payload `data` is set. A bit past the end of
/// the payload reads as clear.
pub open spec fn spec_bit_set(data: Seq<u8>, bitnum: nat) -> bool {
    bitnum / 8 < data.len() && (data[(bitnum / 8) as int] >> ((7 - bitnum % 8) as u8)) & 1 == 1
}

impl BitStringObject {
    /// Test if bit `bitnum` is set. An out-of-range `bitnum` yields `false`,
    /// not an error.
    pub fn is_set(&self, bitnum: usize) -> (r: bool)
        ensures
            r == spec_bit_set(self@, bitnum as nat),
    {
        let byte_pos: usize = bitnum / 8;
        if byte_pos >= self.data.len() {
            return false;
        }
        let b: usize = 7 - (bitnum % 8);
        let byte: u8 = self.data[byte_pos];
        proof {
            assert((byte & (1u8 << (b as u8)) != 0) == ((byte >> (b as u8)) & 1 == 1))
                by (bit_vector)
                requires b < 8;
        }
        (byte & (1u8 << (b as u8))) != 0
    }

    /// The raw payload bytes.
    pub fn as_ref(&self) -> (r: &[u8])
        ensures
            r@ == self@,
    {
        self.data.as_slice()
    }
}

impl Clone for BitStringObject {
    /// Copies the payload; the copy denotes the same bit string.
    fn clone(&self) -> (r: Self)
        ensures
            r@ == self@,
    {
        BitStringObject { data: slice_to_vec(self.data.as_slice()) }
    }
}

} // verus!
