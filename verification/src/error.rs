//! Error taxonomy of the accessor layer.
//!
//! Both kinds are local and recoverable: an accessor returns them as explicit
//! results and never as control-flow signals.

use vstd::prelude::*;

verus! {

/// Failure of a typed accessor.
#[derive(Clone, Copy, Debug, PartialEq, Eq, Structural)]
pub enum BerError {
    /// The accessor was invoked against a content variant it does not support.
    BerTypeError,
    /// The decoded magnitude exceeds the requested output width.
    IntegerTooLarge,
}

} // verus!
