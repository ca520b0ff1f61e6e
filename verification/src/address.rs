//! Diversifiers and shielded payment addresses.
//!
//! A diversifier is 11 bytes: the little-endian address index followed by
//! seven zero bytes. Its hash-to-curve image, multiplied by the incoming
//! viewing key, gives the diversified transmission key; the raw address is
//! `diversifier || pk_d`, packed into 5-bit symbols and Bech32-encoded
//! under the fixed prefix "zs". The packing keeps only the low five bits
//! of each raw byte, so it is deliberately lossy.

use vstd::prelude::*;
use vstd::bytes::{spec_u32_to_le_bytes, u32_to_le_bytes};
use vstd::slice::slice_subrange;

use crate::append_bytes;
use crate::le_nat;
use crate::curve::{jubjub_order, point_decode_ok, point_mul, point_mul_of, point_valid, scalar_decode_ok};
use crate::errors::KeyError;
use crate::hashing::{blake2s_256, blake2s_of, gd_personal, pers_gd};

verus! {

/// The 11-byte diversifier of an address index: the index in little-endian
/// order, then seven zero bytes.
pub open spec fn diversifier_of(index: u32) -> Seq<u8> {
    spec_u32_to_le_bytes(index) + seq![0u8, 0u8, 0u8, 0u8, 0u8, 0u8, 0u8]
}

/// The 32-byte hash-to-curve image of a diversifier, interpreted directly
/// as a compressed point encoding.
pub open spec fn gd_hash_of(d: Seq<u8>) -> Seq<u8> {
    blake2s_of(pers_gd(), d)
}

/// Each byte of `s` reduced to its low five bits: the lossy packing used
/// before Bech32 encoding.
pub open spec fn fold32(s: Seq<u8>) -> Seq<u8> {
    s.map_values(|b: u8| (b % 32) as u8)
}

/// The Bech32 address string (prefix "zs", Bech32 checksum) over a
/// sequence of 5-bit symbols, as the outside encoder produces it.
pub uninterp spec fn bech32_zs_of(symbols: Seq<u8>) -> Seq<char>;

/// The raw 43-byte payment address for a viewing key and index:
/// `diversifier || pk_d`.
pub open spec fn raw_address_of(vk: Seq<u8>, index: u32) -> Seq<u8> {
    let d = diversifier_of(index);
    d + point_mul_of(gd_hash_of(d), vk.subrange(64, 96))
}

/// The encoded payment address for a viewing key and index.
pub open spec fn payment_address_of(vk: Seq<u8>, index: u32) -> Seq<char> {
    bech32_zs_of(fold32(raw_address_of(vk, index)))
}

/// Relies on bech32::encode with the fixed human-readable part "zs" and
/// the Bech32 checksum variant: every symbol is below 32 by precondition,
/// and encoding fails only on an invalid human-readable part, which "zs"
/// is not, so the unwraps cannot fail. The output depends on the symbols
/// alone.
#[verifier::external_body]
pub(crate) fn bech32_encode_zs(symbols: &Vec<u8>) -> (r: String)
    requires
        forall|i: int| 0 <= i < symbols@.len() ==> symbols@[i] < 32,
    ensures
        r@ == bech32_zs_of(symbols@),
{
    let data: Vec<bech32::u5> = symbols.iter().map(|b| bech32::u5::try_from_u8(*b).unwrap()).collect();
    bech32::encode("zs", data, bech32::Variant::Bech32).unwrap()
}

/// Builds the 11-byte diversifier for an address index.
pub fn diversifier_from_index(index: u32) -> (r: Vec<u8>)
    ensures
        r@ == diversifier_of(index),
        r@.len() == 11,
{
    let mut d = u32_to_le_bytes(index);
    let mut i: usize = 0;
    while i < 7
        invariant
            i <= 7,
            d@.len() == 4 + i,
            d@.take(4) == spec_u32_to_le_bytes(index),
            forall|j: int| 4 <= j < d@.len() ==> d@[j] == 0u8,
        decreases 7 - i,
    {
        d.push(0);
        i = i + 1;
    }
    proof {
        assert(d@ =~= diversifier_of(index));
    }
    d
}

/// Passes a diversifier through unchanged. The canonical protocol searches
/// for the next diversifier whose hash is a valid curve point; no such
/// search happens here — the caller learns of an invalid diversifier only
/// from `diversifier_to_point`. This known incompleteness is kept as it
/// stands for compatibility.
pub fn find_valid_diversifier(d: &[u8]) -> (r: Result<Vec<u8>, KeyError>)
    ensures
        r matches Ok(v) && v@ == d@,
{
    Ok(vstd::slice::slice_to_vec(d))
}

/// Hashes a diversifier to the compressed encoding of a curve point:
/// succeeds exactly when the 32-byte digest decodes to a valid point of
/// the prime-order subgroup, and fails with `InvalidDiversifier`
/// otherwise.
pub fn diversifier_to_point(d: &[u8]) -> (r: Result<Vec<u8>, KeyError>)
    ensures
        point_valid(gd_hash_of(d@)) ==> (r matches Ok(p) && p@ == gd_hash_of(d@) && p@.len()
            == 32),
        !point_valid(gd_hash_of(d@)) ==> r == Err::<Vec<u8>, KeyError>(
            KeyError::InvalidDiversifier,
        ),
{
    let personal = gd_personal();
    let h = blake2s_256(personal.as_slice(), d);
    if !point_decode_ok(h.as_slice()) {
        return Err(KeyError::InvalidDiversifier);
    }
    Ok(h)
}

/// Packs raw address bytes into 5-bit symbols (keeping only the low five
/// bits of each byte) and Bech32-encodes them under the prefix "zs". The
/// packing is lossy: a byte of value 32 or more is not recoverable from
/// the encoding.
pub fn encode_payment_address(raw: &[u8]) -> (r: Result<String, KeyError>)
    ensures
        r matches Ok(s) && s@ == bech32_zs_of(fold32(raw@)),
{
    let mut symbols: Vec<u8> = Vec::new();
    let mut i: usize = 0;
    while i < raw.len()
        invariant
            i <= raw@.len(),
            symbols@.len() == i,
            forall|j: int| 0 <= j < i ==> symbols@[j] == raw@[j] % 32,
        decreases raw@.len() - i,
    {
        symbols.push(raw[i] % 32);
        i = i + 1;
    }
    proof {
        assert(symbols@ =~= fold32(raw@));
    }
    Ok(bech32_encode_zs(&symbols))
}

/// Derives the encoded payment address for a viewing key of at least 128
/// bytes and an address index. Fails with `InvalidDiversifier` when the
/// diversifier hash is not a valid point, and with `InvalidScalar` when
/// the `ivk` segment of the viewing key is not a canonical scalar.
pub fn derive_payment_address(viewing_key: &[u8], diversifier_index: u32) -> (r: Result<
    String,
    KeyError,
>)
    ensures
        viewing_key@.len() < 128 ==> r == Err::<String, KeyError>(KeyError::InputTooShort {
            need: 128usize,
            got: viewing_key@.len() as usize,
        }),
        viewing_key@.len() >= 128 && !point_valid(gd_hash_of(diversifier_of(diversifier_index)))
            ==> r == Err::<String, KeyError>(KeyError::InvalidDiversifier),
        viewing_key@.len() >= 128 && point_valid(gd_hash_of(diversifier_of(diversifier_index)))
            && le_nat(viewing_key@.subrange(64, 96)) >= jubjub_order() ==> r == Err::<
            String,
            KeyError,
        >(KeyError::InvalidScalar),
        viewing_key@.len() >= 128 && point_valid(gd_hash_of(diversifier_of(diversifier_index)))
            && le_nat(viewing_key@.subrange(64, 96)) < jubjub_order() ==> (r matches Ok(s) && s@
            == payment_address_of(viewing_key@, diversifier_index)),
{
    if viewing_key.len() < 128 {
        return Err(KeyError::InputTooShort { need: 128, got: viewing_key.len() });
    }
    let ivk = slice_subrange(viewing_key, 64, 96);

    let diversifier = diversifier_from_index(diversifier_index);

    let g_d = match diversifier_to_point(diversifier.as_slice()) {
        Ok(p) => p,
        Err(e) => {
            return Err(e);
        },
    };
    if !scalar_decode_ok(ivk) {
        return Err(KeyError::InvalidScalar);
    }
    let pk_d = point_mul(g_d.as_slice(), ivk);

    let mut raw_address: Vec<u8> = Vec::new();
    append_bytes(&mut raw_address, diversifier.as_slice());
    append_bytes(&mut raw_address, pk_d.as_slice());
    proof {
        assert(raw_address@ =~= raw_address_of(viewing_key@, diversifier_index));
    }
    encode_payment_address(raw_address.as_slice())
}

/// Law: the address packing keeps only the low five bits of each raw
/// byte, so a raw byte of value 32 or more is never reproduced by its
/// symbol — the encoding cannot be inverted to recover such a byte.
pub proof fn lemma_address_packing_lossy(raw: Seq<u8>, i: int)
    requires
        0 <= i < raw.len(),
        raw[i] >= 32,
    ensures
        fold32(raw)[i] != raw[i],
{
    assert(raw[i] % 32 < 32);
}

} // verus!
