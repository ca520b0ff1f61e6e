//! Domain-separated hashing.
//!
//! All key material, commitments and nullifiers are derived through BLAKE2b
//! and BLAKE2s with fixed personalization strings. The two hash functions
//! come from outside crates; their results are named by uninterpreted spec
//! functions, and everything around the calls is verified.

use vstd::prelude::*;

verus! {

/// The 32-byte (or shorter) BLAKE2b digest of `data` under `personal`,
/// as computed by the outside crate. `out_len` is the digest length.
pub uninterp spec fn blake2b_of(out_len: int, personal: Seq<u8>, data: Seq<u8>) -> Seq<u8>;

/// The 32-byte BLAKE2s digest of `data` under the 8-byte `personal`,
/// as computed by the outside crate.
pub uninterp spec fn blake2s_of(personal: Seq<u8>, data: Seq<u8>) -> Seq<u8>;

/// `p` truncated or zero-padded to exactly 16 bytes, as the BLAKE2b
/// parameter block stores a personalization.
pub open spec fn pad16(p: Seq<u8>) -> Seq<u8> {
    if p.len() >= 16 {
        p.take(16)
    } else {
        p + Seq::new((16 - p.len()) as nat, |i: int| 0u8)
    }
}

/// `p` zero-padded to exactly 8 bytes, as the BLAKE2s parameter block
/// stores a personalization.
pub open spec fn pad8(p: Seq<u8>) -> Seq<u8>
    recommends
        p.len() <= 8,
{
    p + Seq::new((8 - p.len()) as nat, |i: int| 0u8)
}

/// "Zcash_ExpandSeed": the seed-expansion personalization.
pub open spec fn pers_expand_seed() -> Seq<u8> {
    seq![0x5au8, 0x63u8, 0x61u8, 0x73u8, 0x68u8, 0x5fu8, 0x45u8, 0x78u8,
         0x70u8, 0x61u8, 0x6eu8, 0x64u8, 0x53u8, 0x65u8, 0x65u8, 0x64u8]
}

/// "Zcash_nf": the nullifier personalization.
pub open spec fn pers_nf() -> Seq<u8> {
    seq![0x5au8, 0x63u8, 0x61u8, 0x73u8, 0x68u8, 0x5fu8, 0x6eu8, 0x66u8]
}

/// "Zcashivk": the incoming-viewing-key compression personalization.
pub open spec fn pers_ivk() -> Seq<u8> {
    seq![0x5au8, 0x63u8, 0x61u8, 0x73u8, 0x68u8, 0x69u8, 0x76u8, 0x6bu8]
}

/// "Zcash_gd": the diversifier hash-to-curve personalization.
pub open spec fn pers_gd() -> Seq<u8> {
    seq![0x5au8, 0x63u8, 0x61u8, 0x73u8, 0x68u8, 0x5fu8, 0x67u8, 0x64u8]
}

/// "Zcash_PH": the note-commitment personalization.
pub open spec fn pers_ph() -> Seq<u8> {
    seq![0x5au8, 0x63u8, 0x61u8, 0x73u8, 0x68u8, 0x5fu8, 0x50u8, 0x48u8]
}

/// Relies on blake2b_simd::Params: the BLAKE2b digest of `data`, `out_len`
/// bytes long, personalized with the 16 bytes of `personal`; the result
/// depends on those three arguments alone. `hash_length` outside 1..=64
/// would panic in the outside crate, so it is excluded here.
#[verifier::external_body]
pub(crate) fn blake2b_raw(out_len: usize, personal: &[u8], data: &[u8]) -> (r: Vec<u8>)
    requires
        1 <= out_len <= 64,
        personal@.len() == 16,
    ensures
        r@ == blake2b_of(out_len as int, personal@, data@),
        r@.len() == out_len,
{
    blake2b_simd::Params::new()
        .hash_length(out_len)
        .personal(personal)
        .hash(data)
        .as_bytes()
        .to_vec()
}

/// Relies on blake2s_simd::Params: the 32-byte BLAKE2s digest of `data`
/// personalized with the 8 bytes of `personal`; the result depends on the
/// two arguments alone.
#[verifier::external_body]
pub(crate) fn blake2s_256(personal: &[u8], data: &[u8]) -> (r: Vec<u8>)
    requires
        personal@.len() == 8,
    ensures
        r@ == blake2s_of(personal@, data@),
        r@.len() == 32,
{
    blake2s_simd::Params::new()
        .hash_length(32)
        .personal(personal)
        .hash(data)
        .as_bytes()
        .to_vec()
}

/// The seed-expansion personalization as bytes.
pub(crate) fn expand_seed_personal() -> (r: Vec<u8>)
    ensures
        r@ == pers_expand_seed(),
{
    let mut v: Vec<u8> = Vec::new();
    v.push(0x5a);
    v.push(0x63);
    v.push(0x61);
    v.push(0x73);
    v.push(0x68);
    v.push(0x5f);
    v.push(0x45);
    v.push(0x78);
    v.push(0x70);
    v.push(0x61);
    v.push(0x6e);
    v.push(0x64);
    v.push(0x53);
    v.push(0x65);
    v.push(0x65);
    v.push(0x64);
    proof {
        assert(v@ =~= pers_expand_seed());
    }
    v
}

/// The incoming-viewing-key compression personalization as bytes.
pub(crate) fn ivk_personal() -> (r: Vec<u8>)
    ensures
        r@ == pers_ivk(),
{
    let mut v: Vec<u8> = Vec::new();
    v.push(0x5a);
    v.push(0x63);
    v.push(0x61);
    v.push(0x73);
    v.push(0x68);
    v.push(0x69);
    v.push(0x76);
    v.push(0x6b);
    proof {
        assert(v@ =~= pers_ivk());
    }
    v
}

/// The diversifier hash-to-curve personalization as bytes.
pub(crate) fn gd_personal() -> (r: Vec<u8>)
    ensures
        r@ == pers_gd(),
{
    let mut v: Vec<u8> = Vec::new();
    v.push(0x5a);
    v.push(0x63);
    v.push(0x61);
    v.push(0x73);
    v.push(0x68);
    v.push(0x5f);
    v.push(0x67);
    v.push(0x64);
    proof {
        assert(v@ =~= pers_gd());
    }
    v
}

/// What a seed lane expands to: the first 32 bytes of the 64-byte BLAKE2b
/// digest of `key || t` under the seed-expansion personalization.
pub open spec fn prf_expand_of(key: Seq<u8>, t: Seq<u8>) -> Seq<u8> {
    blake2b_of(64, pers_expand_seed(), key + t).take(32)
}

/// Domain-separated pseudorandom expansion of key material: a 64-byte
/// keyed BLAKE2b digest of `key || t`, truncated to its first 32 bytes.
pub fn prf_expand(key: &[u8], t: &[u8]) -> (r: Vec<u8>)
    ensures
        r@ == prf_expand_of(key@, t@),
        r@.len() == 32,
{
    let personal = expand_seed_personal();
    let mut input: Vec<u8> = Vec::new();
    let mut i: usize = 0;
    while i < key.len()
        invariant
            i <= key@.len(),
            input@ == key@.take(i as int),
        decreases key@.len() - i,
    {
        input.push(key[i]);
        i = i + 1;
    }
    let mut j: usize = 0;
    while j < t.len()
        invariant
            j <= t@.len(),
            input@ == key@ + t@.take(j as int),
        decreases t@.len() - j,
    {
        input.push(t[j]);
        j = j + 1;
    }
    proof {
        assert(key@.take(key@.len() as int) =~= key@);
        assert(input@ =~= key@ + t@);
    }
    let wide = blake2b_raw(64, personal.as_slice(), input.as_slice());
    let mut out: Vec<u8> = Vec::new();
    let mut k: usize = 0;
    while k < 32
        invariant
            k <= 32,
            wide@.len() == 64,
            wide@ == blake2b_of(64, pers_expand_seed(), key@ + t@),
            out@ == wide@.take(k as int),
        decreases 32 - k,
    {
        out.push(wide[k]);
        k = k + 1;
    }
    out
}

/// General-purpose domain-separated hashing: the 32-byte BLAKE2b digest of
/// `data` under `personalization`, which is zero-padded to 16 bytes when
/// shorter and truncated to 16 bytes when longer.
pub fn blake2b_hash(data: &[u8], personalization: &[u8]) -> (r: Vec<u8>)
    ensures
        r@ == blake2b_of(32, pad16(personalization@), data@),
        r@.len() == 32,
{
    let mut personal: Vec<u8> = Vec::new();
    let take = if personalization.len() < 16 {
        personalization.len()
    } else {
        16
    };
    let mut i: usize = 0;
    while i < take
        invariant
            take <= 16,
            take <= personalization@.len(),
            i <= take,
            personal@.len() == i,
            forall|j: int| 0 <= j < i ==> personal@[j] == personalization@[j],
        decreases take - i,
    {
        personal.push(personalization[i]);
        i = i + 1;
    }
    while i < 16
        invariant
            take <= i <= 16,
            take <= personalization@.len(),
            personal@.len() == i,
            forall|j: int| 0 <= j < take ==> personal@[j] == personalization@[j],
            forall|j: int| take <= j < i ==> personal@[j] == 0u8,
        decreases 16 - i,
    {
        personal.push(0);
        i = i + 1;
    }
    proof {
        assert(personal@ =~= pad16(personalization@));
    }
    blake2b_raw(32, personal.as_slice(), data)
}

/// The nullifier personalization, zero-padded to the 16 bytes the BLAKE2b
/// parameter block stores.
pub(crate) fn nf_personal() -> (r: Vec<u8>)
    ensures
        r@ == pad16(pers_nf()),
{
    let mut v: Vec<u8> = Vec::new();
    v.push(0x5a);
    v.push(0x63);
    v.push(0x61);
    v.push(0x73);
    v.push(0x68);
    v.push(0x5f);
    v.push(0x6e);
    v.push(0x66);
    v.push(0x00);
    v.push(0x00);
    v.push(0x00);
    v.push(0x00);
    v.push(0x00);
    v.push(0x00);
    v.push(0x00);
    v.push(0x00);
    proof {
        assert(v@ =~= pad16(pers_nf()));
    }
    v
}

} // verus!
