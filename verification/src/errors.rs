//! The closed error taxonomy of the library.
//!
//! Every fallible operation aborts with one of these variants and produces
//! no partial output; each variant carries the structured context a caller
//! needs (which length was expected, which was seen).

use vstd::prelude::*;

verus! {

/// Why a derivation was refused.
#[derive(Debug, Clone, Copy, PartialEq, Eq, Structural)]
pub enum KeyError {
    /// A variable-length input was shorter than required.
    InputTooShort { need: usize, got: usize },
    /// A fixed-length field had the wrong exact length.
    InvalidInput { expected: usize, got: usize },
    /// A 32-byte field did not decode to a value strictly below the
    /// jubjub group order.
    InvalidScalar,
    /// The hash of a diversifier did not decode to a valid point of the
    /// prime-order subgroup.
    InvalidDiversifier,
    /// Signing-key bytes did not parse to a valid secp256k1 scalar.
    InvalidKey,
    /// The underlying text encoder refused its input.
    EncodingError,
}

} // verus!
