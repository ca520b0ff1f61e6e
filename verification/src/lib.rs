//! Key derivation for a shielded-and-transparent wallet.
//!
//! From a single secret seed this library derives a spending key, a full
//! viewing key and arbitrarily many diversified payment addresses; it also
//! computes note commitments and nullifiers, signs transparent-pool
//! messages, and exposes generic hashing and randomness utilities.
//!
//! Every derivation is a pure function of its input bytes; the underlying
//! cryptographic primitives are supplied by outside crates and are reached
//! through narrow trusted wrappers whose contracts name their results.

use vstd::prelude::*;

pub mod address;
pub mod curve;
pub mod errors;
pub mod hashing;
pub mod keys;
pub mod notes;
pub mod randomness;
pub mod signing;
pub mod transparent;

pub use address::{
    derive_payment_address, diversifier_from_index, diversifier_to_point, encode_payment_address,
    find_valid_diversifier,
};
pub use curve::Scalar;
pub use errors::KeyError;
pub use hashing::{blake2b_hash, prf_expand};
pub use keys::{crh_ivk, derive_viewing_key, generate_spending_key};
pub use notes::{compute_note_commitment, compute_nullifier, pedersen_hash};
pub use randomness::{random_bytes, random_scalar};
pub use signing::sign_transparent;
pub use transparent::generate_transparent_address;

verus! {

/// Little-endian interpretation of a byte sequence as a natural number.
pub open spec fn le_nat(s: Seq<u8>) -> nat
    decreases s.len(),
{
    if s.len() == 0 {
        0
    } else {
        (s[0] + 256 * le_nat(s.skip(1))) as nat
    }
}

/// Big-endian interpretation of a byte sequence as a natural number.
pub open spec fn be_nat(s: Seq<u8>) -> nat
    decreases s.len(),
{
    if s.len() == 0 {
        0
    } else {
        (256 * be_nat(s.drop_last()) + s.last()) as nat
    }
}

/// Appends every byte of `s` to `v`.
pub fn append_bytes(v: &mut Vec<u8>, s: &[u8])
    ensures
        final(v)@ == old(v)@ + s@,
{
    proof {
        assert(v@ =~= v@ + s@.take(0));
    }
    let mut i: usize = 0;
    while i < s.len()
        invariant
            i <= s@.len(),
            v@ == old(v)@ + s@.take(i as int),
        decreases s@.len() - i,
    {
        v.push(s[i]);
        proof {
            assert(v@ =~= old(v)@ + s@.take(i + 1));
        }
        i = i + 1;
    }
    proof {
        assert(v@ =~= old(v)@ + s@);
    }
}

} // verus!
