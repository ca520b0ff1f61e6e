//! Note commitments and nullifiers.
//!
//! A note commitment binds a note's fields (`diversifier || pk_d ||
//! value || rcm`) through a domain-separated 32-byte hash; it stands in
//! for a curve-based commitment and carries no homomorphic structure. A
//! nullifier is a domain-separated keyed hash over `nk || commitment ||
//! position`.

use vstd::prelude::*;
use vstd::bytes::{spec_u64_to_le_bytes, u64_to_le_bytes};

use crate::append_bytes;
use crate::errors::KeyError;
use crate::hashing::{
    blake2b_of, blake2b_raw, blake2s_256, blake2s_of, nf_personal, pad8, pad16, pers_nf, pers_ph,
};

verus! {

/// The commitment input of a note: `diversifier || pk_d || value
/// (little-endian, 8 bytes) || rcm`, 83 bytes in all.
pub open spec fn note_input_of(d: Seq<u8>, pk_d: Seq<u8>, value: u64, rcm: Seq<u8>) -> Seq<u8> {
    d + pk_d + spec_u64_to_le_bytes(value) + rcm
}

/// The 32-byte commitment of a note's fields.
pub open spec fn note_commitment_of(d: Seq<u8>, pk_d: Seq<u8>, value: u64, rcm: Seq<u8>) -> Seq<
    u8,
> {
    blake2s_of(pers_ph(), note_input_of(d, pk_d, value, rcm))
}

/// The 32-byte nullifier of a committed note at a position: a keyed,
/// domain-separated hash of `nk || commitment || position (little-endian,
/// 8 bytes)`.
pub open spec fn nullifier_of(commitment: Seq<u8>, nk: Seq<u8>, position: u64) -> Seq<u8> {
    blake2b_of(32, pad16(pers_nf()), nk + commitment + spec_u64_to_le_bytes(position))
}

/// A domain-separated 32-byte hash standing in for the curve-based
/// Pedersen hash of the canonical protocol: BLAKE2s of `input` under
/// `personalization`, which is zero-padded to the 8 bytes the parameter
/// block stores. The stand-in is deterministic and collision-resistant
/// under the hash's assumptions but has no algebraic structure.
pub fn pedersen_hash(personalization: &[u8], input: &[u8]) -> (r: Vec<u8>)
    requires
        personalization@.len() <= 8,
    ensures
        r@ == blake2s_of(pad8(personalization@), input@),
        r@.len() == 32,
{
    let mut personal: Vec<u8> = Vec::new();
    append_bytes(&mut personal, personalization);
    let mut i: usize = personal.len();
    while i < 8
        invariant
            personalization@.len() <= i <= 8,
            personal@.len() == i,
            personal@.take(personalization@.len() as int) == personalization@,
            forall|j: int| personalization@.len() <= j < i ==> personal@[j] == 0u8,
        decreases 8 - i,
    {
        personal.push(0);
        i = i + 1;
    }
    proof {
        assert(personal@ =~= pad8(personalization@));
    }
    blake2s_256(personal.as_slice(), input)
}

/// Commits to a note's fields. The diversifier must be exactly 11 bytes
/// and `pk_d` and `rcm` exactly 32; a wrong length is refused, first
/// mismatch first, and otherwise the result is the exact 32-byte
/// commitment.
pub fn compute_note_commitment(diversifier: &[u8], pk_d: &[u8], value: u64, rcm: &[u8]) -> (r:
    Result<Vec<u8>, KeyError>)
    ensures
        diversifier@.len() != 11 ==> r == Err::<Vec<u8>, KeyError>(KeyError::InvalidInput {
            expected: 11usize,
            got: diversifier@.len() as usize,
        }),
        diversifier@.len() == 11 && pk_d@.len() != 32 ==> r == Err::<Vec<u8>, KeyError>(
            KeyError::InvalidInput { expected: 32usize, got: pk_d@.len() as usize },
        ),
        diversifier@.len() == 11 && pk_d@.len() == 32 && rcm@.len() != 32 ==> r == Err::<
            Vec<u8>,
            KeyError,
        >(KeyError::InvalidInput { expected: 32usize, got: rcm@.len() as usize }),
        diversifier@.len() == 11 && pk_d@.len() == 32 && rcm@.len() == 32 ==> (r matches Ok(c)
            && c@ == note_commitment_of(diversifier@, pk_d@, value, rcm@) && c@.len() == 32),
{
    if diversifier.len() != 11 {
        return Err(KeyError::InvalidInput { expected: 11, got: diversifier.len() });
    }
    if pk_d.len() != 32 {
        return Err(KeyError::InvalidInput { expected: 32, got: pk_d.len() });
    }
    if rcm.len() != 32 {
        return Err(KeyError::InvalidInput { expected: 32, got: rcm.len() });
    }
    let mut input: Vec<u8> = Vec::new();
    append_bytes(&mut input, diversifier);
    append_bytes(&mut input, pk_d);
    let value_bytes = u64_to_le_bytes(value);
    append_bytes(&mut input, value_bytes.as_slice());
    append_bytes(&mut input, rcm);
    proof {
        assert(input@ =~= note_input_of(diversifier@, pk_d@, value, rcm@));
    }
    let mut ph: Vec<u8> = Vec::new();
    ph.push(0x5a);
    ph.push(0x63);
    ph.push(0x61);
    ph.push(0x73);
    ph.push(0x68);
    ph.push(0x5f);
    ph.push(0x50);
    ph.push(0x48);
    proof {
        assert(ph@ =~= pers_ph());
    }
    Ok(blake2s_256(ph.as_slice(), input.as_slice()))
}

/// Computes the nullifier of a note commitment under a nullifier-deriving
/// key at a position. Both 32-byte fields are length-checked, first
/// mismatch first; otherwise the result is the exact 32-byte nullifier.
pub fn compute_nullifier(note_commitment: &[u8], nk: &[u8], position: u64) -> (r: Result<
    Vec<u8>,
    KeyError,
>)
    ensures
        note_commitment@.len() != 32 ==> r == Err::<Vec<u8>, KeyError>(KeyError::InvalidInput {
            expected: 32usize,
            got: note_commitment@.len() as usize,
        }),
        note_commitment@.len() == 32 && nk@.len() != 32 ==> r == Err::<Vec<u8>, KeyError>(
            KeyError::InvalidInput { expected: 32usize, got: nk@.len() as usize },
        ),
        note_commitment@.len() == 32 && nk@.len() == 32 ==> (r matches Ok(n) && n@
            == nullifier_of(note_commitment@, nk@, position) && n@.len() == 32),
{
    if note_commitment.len() != 32 {
        return Err(KeyError::InvalidInput { expected: 32, got: note_commitment.len() });
    }
    if nk.len() != 32 {
        return Err(KeyError::InvalidInput { expected: 32, got: nk.len() });
    }
    let mut input: Vec<u8> = Vec::new();
    append_bytes(&mut input, nk);
    append_bytes(&mut input, note_commitment);
    let position_bytes = u64_to_le_bytes(position);
    append_bytes(&mut input, position_bytes.as_slice());
    proof {
        assert(input@ =~= nk@ + note_commitment@ + spec_u64_to_le_bytes(position));
    }
    let personal = nf_personal();
    Ok(blake2b_raw(32, personal.as_slice(), input.as_slice()))
}

} // verus!
