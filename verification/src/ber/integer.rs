//! Big-endian unsigned integer decoding, shared by the integer accessors.

use vstd::prelude::*;

verus! {

use crate::ber::model::SpecContent;
use crate::error::BerError;

/// The unsigned magnitude the bytes denote, big-endian: each byte shifts the
/// value so far up by eight bits. An empty payload denotes zero.
pub open spec fn be_value(bytes: Seq<u8>) -> nat
    decreases bytes,
{
    if bytes.len() == 0 {
        0
    } else {
        (256 * be_value(bytes.drop_last()) + bytes.last()) as nat
    }
}

/// 256 raised to `k`: the number of values `k` bytes can denote.
pub open spec fn pow256(k: nat) -> nat
    decreases k,
{
    if k == 0 {
        1
    } else {
        256 * pow256((k - 1) as nat)
    }
}

/// A payload of `k` bytes denotes a value below `256^k`.
pub proof fn lemma_be_value_bound(bytes: Seq<u8>)
    ensures
        be_value(bytes) < pow256(bytes.len()),
    decreases bytes,
{
    if bytes.len() > 0 {
        lemma_be_value_bound(bytes.drop_last());
    }
}

/// Extending a payload on the right multiplies the denoted value by 256 and
/// adds the new byte.
proof fn lemma_be_value_step(bytes: Seq<u8>, i: int)
    requires
        0 <= i < bytes.len(),
    ensures
        be_value(bytes.subrange(0, i + 1)) == 256 * be_value(bytes.subrange(0, i)) + bytes[i],
{
    let prefix = bytes.subrange(0, i + 1);
    assert(prefix.drop_last() =~= bytes.subrange(0, i));
    assert(prefix.last() == bytes[i]);
}

/// The value a prefix denotes never shrinks as the prefix grows.
proof fn lemma_be_value_prefix_grows(bytes: Seq<u8>, i: int, j: int)
    requires
        0 <= i <= j <= bytes.len(),
    ensures
        be_value(bytes.subrange(0, i)) <= be_value(bytes.subrange(0, j)),
    decreases j - i,
{
    if i < j {
        lemma_be_value_step(bytes, j - 1);
        lemma_be_value_prefix_grows(bytes, i, j - 1);
    }
}

/// What reading an unsigned big-endian integer yields: the denoted value
/// where it fits in 64 bits, and `IntegerTooLarge` where it does not.
pub open spec fn spec_bytes_to_u64(bytes: Seq<u8>) -> Result<u64, BerError> {
    if be_value(bytes) > u64::MAX {
        Err(BerError::IntegerTooLarge)
    } else {
        Ok(be_value(bytes) as u64)
    }
}

/// Read an unsigned integer from big-endian bytes. Fails with
/// `IntegerTooLarge` rather than truncating when the magnitude needs more
/// than 64 bits; an empty payload reads as zero.
pub fn bytes_to_u64(bytes: &[u8]) -> (r: Result<u64, BerError>)
    ensures
        r == spec_bytes_to_u64(bytes@),
{
    let mut u: u64 = 0;
    let n = bytes.len();
    let mut i: usize = 0;
    while i < n
        invariant
            0 <= i <= n,
            n == bytes@.len(),
            u == be_value(bytes@.subrange(0, i as int)),
        decreases n - i,
    {
        if u >= 0x0100_0000_0000_0000u64 {
            proof {
                lemma_be_value_step(bytes@, i as int);
                lemma_be_value_prefix_grows(bytes@, i as int + 1, n as int);
                assert(bytes@.subrange(0, n as int) =~= bytes@);
            }
            return Err(BerError::IntegerTooLarge);
        }
        proof {
            lemma_be_value_step(bytes@, i as int);
        }
        u = u * 256 + (bytes[i] as u64);
        i = i + 1;
    }
    proof {
        assert(bytes@.subrange(0, n as int) =~= bytes@);
    }
    Ok(u)
}

/// What the 64-bit integer accessor yields for each content variant.
pub open spec fn spec_as_u64(c: SpecContent) -> Result<u64, BerError> {
    match c {
        SpecContent::Integer(bytes) => spec_bytes_to_u64(bytes),
        SpecContent::Enum(i) => Ok(i),
        _ => Err(BerError::BerTypeError),
    }
}

/// What the 32-bit integer accessor yields for each content variant: as the
/// 64-bit accessor, with the bound tightened to 32 bits.
pub open spec fn spec_as_u32(c: SpecContent) -> Result<u32, BerError> {
    match c {
        SpecContent::Integer(bytes) => if be_value(bytes) > u32::MAX {
            Err(BerError::IntegerTooLarge)
        } else {
            Ok(be_value(bytes) as u32)
        },
        SpecContent::Enum(i) => if i > u32::MAX {
            Err(BerError::IntegerTooLarge)
        } else {
            Ok(i as u32)
        },
        _ => Err(BerError::BerTypeError),
    }
}

/// For Integer content of at most eight big-endian bytes, the 64-bit
/// accessor always succeeds and yields exactly the big-endian interpretation
/// of the bytes.
pub proof fn lemma_as_u64_is_be_interpretation(bytes: Seq<u8>)
    requires
        bytes.len() <= 8,
    ensures
        be_value(bytes) <= u64::MAX,
        spec_as_u64(SpecContent::Integer(bytes)) == Ok::<u64, BerError>(be_value(bytes) as u64),
{
    lemma_be_value_bound(bytes);
    lemma_pow256_monotone(bytes.len(), 8);
    assert(pow256(8) == 0x1_0000_0000_0000_0000) by {
        reveal_with_fuel(pow256, 9);
    }
}

/// More bytes can denote at least as many values.
proof fn lemma_pow256_monotone(i: nat, j: nat)
    requires
        i <= j,
    ensures
        pow256(i) <= pow256(j),
    decreases j,
{
    if i < j {
        lemma_pow256_monotone(i, (j - 1) as nat);
    }
}

/// On Integer content whose value exceeds the 32-bit maximum but fits in 64
/// bits, the 32-bit accessor fails with `IntegerTooLarge` while the 64-bit
/// accessor succeeds on the same content.
pub proof fn lemma_u32_u64_asymmetry(bytes: Seq<u8>)
    requires
        u32::MAX < be_value(bytes),
        be_value(bytes) <= u64::MAX,
    ensures
        spec_as_u32(SpecContent::Integer(bytes)) == Err::<u32, BerError>(BerError::IntegerTooLarge),
        spec_as_u64(SpecContent::Integer(bytes)) == Ok::<u64, BerError>(be_value(bytes) as u64),
{
}

} // verus!
