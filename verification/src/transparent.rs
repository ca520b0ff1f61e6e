//! Transparent pay-to-key-hash addresses.
//!
//! A transparent address is the Base58 encoding of a fixed 2-byte version
//! prefix followed by the RIPEMD-160 digest of the SHA-256 digest of the
//! public key. No checksum suffix is appended before encoding; this
//! departs from the conventional checksummed form and is kept exactly as
//! it stands.

use vstd::prelude::*;

use sha2::Digest;
use crate::append_bytes;
use crate::errors::KeyError;

verus! {

/// The SHA-256 digest of `data`, as the outside crate computes it.
pub uninterp spec fn sha256_of(data: Seq<u8>) -> Seq<u8>;

/// The RIPEMD-160 digest of `data`, as the outside crate computes it.
pub uninterp spec fn ripemd160_of(data: Seq<u8>) -> Seq<u8>;

/// The Base58 encoding of `data` under the Bitcoin alphabet, as the
/// outside crate computes it.
pub uninterp spec fn base58_of(data: Seq<u8>) -> Seq<char>;

/// The 22-byte versioned key hash of a public key: the prefix 0x1C 0xB8,
/// then RIPEMD-160 of SHA-256 of the key.
pub open spec fn versioned_key_hash_of(public_key: Seq<u8>) -> Seq<u8> {
    seq![0x1cu8, 0xb8u8] + ripemd160_of(sha256_of(public_key))
}

/// The transparent address string of a public key.
pub open spec fn transparent_address_of(public_key: Seq<u8>) -> Seq<char> {
    base58_of(versioned_key_hash_of(public_key))
}

/// Relies on sha2::Sha256: the 32-byte SHA-256 digest of `data`, a
/// function of `data` alone.
#[verifier::external_body]
pub(crate) fn sha256(data: &[u8]) -> (r: Vec<u8>)
    ensures
        r@ == sha256_of(data@),
        r@.len() == 32,
{
    sha2::Sha256::digest(data).to_vec()
}

/// Relies on ripemd::Ripemd160: the 20-byte RIPEMD-160 digest of `data`,
/// a function of `data` alone.
#[verifier::external_body]
pub(crate) fn ripemd160(data: &[u8]) -> (r: Vec<u8>)
    ensures
        r@ == ripemd160_of(data@),
        r@.len() == 20,
{
    ripemd::Ripemd160::digest(data).to_vec()
}

/// Relies on bs58::encode: the Base58 string of `data` under the default
/// Bitcoin alphabet, a function of `data` alone; encoding to a fresh
/// string never fails.
#[verifier::external_body]
pub(crate) fn base58_encode(data: &[u8]) -> (r: String)
    ensures
        r@ == base58_of(data@),
{
    bs58::encode(data).into_string()
}

/// Derives the transparent address of a public key: hash with SHA-256,
/// hash that with RIPEMD-160, prepend the version prefix 0x1C 0xB8 and
/// Base58-encode. Total over every input.
pub fn generate_transparent_address(public_key: &[u8]) -> (r: Result<String, KeyError>)
    ensures
        r matches Ok(s) && s@ == transparent_address_of(public_key@),
{
    let sha_hash = sha256(public_key);
    let ripemd_hash = ripemd160(sha_hash.as_slice());

    let mut payload: Vec<u8> = Vec::new();
    payload.push(0x1c);
    payload.push(0xb8);
    append_bytes(&mut payload, ripemd_hash.as_slice());
    proof {
        assert(payload@ =~= versioned_key_hash_of(public_key@));
    }
    Ok(base58_encode(payload.as_slice()))
}

} // verus!
