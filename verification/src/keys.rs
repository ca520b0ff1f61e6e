//! Spending-key and viewing-key derivation.
//!
//! A 96-byte spending key (`ask || nsk || ovk`) is a pure function of the
//! first 32 bytes of a seed. A 128-byte full viewing key
//! (`ak || nk || ivk || ovk`) follows from a spending key by scalar
//! multiplication of the fixed base generator and a compression hash.

use vstd::prelude::*;
use vstd::slice::slice_subrange;

use crate::append_bytes;
use crate::le_nat;
use crate::curve::{generator_mul, generator_mul_of, jubjub_order, scalar_decode_ok};
use crate::errors::KeyError;
use crate::hashing::{blake2s_256, blake2s_of, ivk_personal, pers_ivk, prf_expand, prf_expand_of};

verus! {

/// The 96-byte spending key derived from a seed: the three seed-expansion
/// lanes (spend-authorizing, nullifier-deriving, outgoing-viewing, tagged
/// 0, 1 and 2) over the first 32 bytes of the seed, concatenated. Bytes of
/// the seed past the 32nd never influence the result.
pub open spec fn spending_key_of(seed: Seq<u8>) -> Seq<u8> {
    prf_expand_of(seed.take(32), seq![0u8]) + prf_expand_of(seed.take(32), seq![1u8])
        + prf_expand_of(seed.take(32), seq![2u8])
}

/// The incoming viewing key compressed from `ak || nk`: a domain-separated
/// 32-byte BLAKE2s digest whose last byte keeps only its low three bits.
/// The masking is an approximate range reduction, not a reduction modulo
/// the group order; it is kept exactly as stated for compatibility.
pub open spec fn ivk_of(ak: Seq<u8>, nk: Seq<u8>) -> Seq<u8> {
    let h = blake2s_of(pers_ivk(), ak + nk);
    h.update(31, h[31] & 0x07)
}

/// The 128-byte full viewing key derived from a 96-byte spending key:
/// `ak = ask * G`, `nk = nsk * G`, `ivk = CRH(ak, nk)`, and `ovk` carried
/// over unchanged.
pub open spec fn viewing_key_of(sk: Seq<u8>) -> Seq<u8> {
    let ak = generator_mul_of(sk.subrange(0, 32));
    let nk = generator_mul_of(sk.subrange(32, 64));
    ak + nk + ivk_of(ak, nk) + sk.subrange(64, 96)
}

/// Derives the spending key from a seed of at least 32 bytes; only the
/// first 32 bytes are used.
pub fn generate_spending_key(seed: &[u8]) -> (r: Result<Vec<u8>, KeyError>)
    ensures
        seed@.len() < 32 ==> r == Err::<Vec<u8>, KeyError>(KeyError::InputTooShort {
            need: 32usize,
            got: seed@.len() as usize,
        }),
        seed@.len() >= 32 ==> (r matches Ok(v) && v@ == spending_key_of(seed@) && v@.len() == 96),
{
    if seed.len() < 32 {
        return Err(KeyError::InputTooShort { need: 32, got: seed.len() });
    }
    let seed32 = slice_subrange(seed, 0, 32);
    proof {
        assert(seed32@ =~= seed@.take(32));
    }
    let mut tag0: Vec<u8> = Vec::new();
    tag0.push(0x00);
    let mut tag1: Vec<u8> = Vec::new();
    tag1.push(0x01);
    let mut tag2: Vec<u8> = Vec::new();
    tag2.push(0x02);
    proof {
        assert(tag0@ =~= seq![0u8]);
        assert(tag1@ =~= seq![1u8]);
        assert(tag2@ =~= seq![2u8]);
    }
    let ask = prf_expand(seed32, tag0.as_slice());
    let nsk = prf_expand(seed32, tag1.as_slice());
    let ovk = prf_expand(seed32, tag2.as_slice());

    let mut spending_key: Vec<u8> = Vec::new();
    append_bytes(&mut spending_key, ask.as_slice());
    append_bytes(&mut spending_key, nsk.as_slice());
    append_bytes(&mut spending_key, ovk.as_slice());
    proof {
        assert(spending_key@ =~= spending_key_of(seed@));
    }
    Ok(spending_key)
}

/// Compresses `ak || nk` into the incoming viewing key: a 32-byte
/// domain-separated BLAKE2s digest with the top five bits of its last byte
/// cleared.
pub fn crh_ivk(ak: &[u8], nk: &[u8]) -> (r: Vec<u8>)
    ensures
        r@ == ivk_of(ak@, nk@),
        r@.len() == 32,
        r@[31] & 0xf8 == 0,
{
    let mut input: Vec<u8> = Vec::new();
    append_bytes(&mut input, ak);
    append_bytes(&mut input, nk);
    proof {
        assert(input@ =~= ak@ + nk@);
    }
    let personal = ivk_personal();
    let mut h = blake2s_256(personal.as_slice(), input.as_slice());
    let b = h[31];
    h.set(31, b & 0x07);
    proof {
        assert(h@ =~= ivk_of(ak@, nk@));
        assert((b & 0x07) & 0xf8 == 0) by (bit_vector);
    }
    h
}

/// Derives the full viewing key from a spending key of at least 96 bytes.
/// Fails with `InvalidScalar` when `ask` or `nsk` is not a canonical
/// scalar encoding; otherwise the result is the exact 128-byte key, and
/// the last byte of its `ivk` segment has its top five bits clear.
pub fn derive_viewing_key(spending_key: &[u8]) -> (r: Result<Vec<u8>, KeyError>)
    ensures
        spending_key@.len() < 96 ==> r == Err::<Vec<u8>, KeyError>(KeyError::InputTooShort {
            need: 96usize,
            got: spending_key@.len() as usize,
        }),
        spending_key@.len() >= 96 && le_nat(spending_key@.subrange(0, 32)) >= jubjub_order()
            ==> r == Err::<Vec<u8>, KeyError>(KeyError::InvalidScalar),
        spending_key@.len() >= 96 && le_nat(spending_key@.subrange(0, 32)) < jubjub_order()
            && le_nat(spending_key@.subrange(32, 64)) >= jubjub_order() ==> r == Err::<
            Vec<u8>,
            KeyError,
        >(KeyError::InvalidScalar),
        spending_key@.len() >= 96 && le_nat(spending_key@.subrange(0, 32)) < jubjub_order()
            && le_nat(spending_key@.subrange(32, 64)) < jubjub_order() ==> (r matches Ok(v)
            && v@ == viewing_key_of(spending_key@) && v@.len() == 128 && v@[95] & 0xf8 == 0),
{
    if spending_key.len() < 96 {
        return Err(KeyError::InputTooShort { need: 96, got: spending_key.len() });
    }
    let ask = slice_subrange(spending_key, 0, 32);
    let nsk = slice_subrange(spending_key, 32, 64);
    let ovk = slice_subrange(spending_key, 64, 96);

    if !scalar_decode_ok(ask) {
        return Err(KeyError::InvalidScalar);
    }
    let ak = generator_mul(ask);

    if !scalar_decode_ok(nsk) {
        return Err(KeyError::InvalidScalar);
    }
    let nk = generator_mul(nsk);

    let ivk = crh_ivk(ak.as_slice(), nk.as_slice());

    let mut viewing_key: Vec<u8> = Vec::new();
    append_bytes(&mut viewing_key, ak.as_slice());
    append_bytes(&mut viewing_key, nk.as_slice());
    append_bytes(&mut viewing_key, ivk.as_slice());
    append_bytes(&mut viewing_key, ovk);
    proof {
        assert(viewing_key@ =~= viewing_key_of(spending_key@));
        assert(viewing_key@[95] == ivk@[31]);
    }
    Ok(viewing_key)
}

/// Law: the spending key depends only on the first 32 bytes of the seed;
/// two seeds that agree there derive byte-identical spending keys.
pub proof fn lemma_spending_key_depends_on_prefix(s1: Seq<u8>, s2: Seq<u8>)
    requires
        s1.len() >= 32,
        s2.len() >= 32,
        s1.take(32) == s2.take(32),
    ensures
        spending_key_of(s1) == spending_key_of(s2),
{
}

/// Law: for any `ak` and `nk`, the last byte of the compressed incoming
/// viewing key has its top five bits equal to zero. The hypothesis only
/// records that the compression digest is 32 bytes, which holds of every
/// digest the hash hands back.
pub proof fn lemma_ivk_top_bits_clear(ak: Seq<u8>, nk: Seq<u8>)
    requires
        blake2s_of(pers_ivk(), ak + nk).len() == 32,
    ensures
        ivk_of(ak, nk)[31] & 0xf8 == 0,
{
    let b = blake2s_of(pers_ivk(), ak + nk)[31];
    assert((b & 0x07) & 0xf8 == 0) by (bit_vector);
}

} // verus!
