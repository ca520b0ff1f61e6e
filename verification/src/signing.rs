//! ECDSA signing for the transparent pool.
//!
//! Messages are signed over secp256k1 with a deterministic (RFC 6979)
//! nonce, so a signature is a pure function of key and message. A 32-byte
//! message is treated as a pre-computed digest and handed to the signer as
//! it stands — it is never re-hashed here; anything else is first reduced
//! with SHA-256. This overload is deliberate and is kept exactly.

use vstd::prelude::*;

use k256::ecdsa::signature::Signer;
use crate::be_nat;
use crate::errors::KeyError;
use crate::transparent::{sha256, sha256_of};

verus! {

/// The order of the secp256k1 group.
pub open spec fn secp256k1_order() -> nat {
    0xfffffffffffffffffffffffffffffffebaaedce6af48a03bbfd25e8cd0364141nat
}

/// Whether signing-key bytes parse to a valid secp256k1 scalar: 24 to 32
/// bytes (shorter encodings are zero-padded on the left) whose big-endian
/// value is neither zero nor at or above the group order.
pub open spec fn signing_key_ok(key: Seq<u8>) -> bool {
    24 <= key.len() <= 32 && 0 < be_nat(key) < secp256k1_order()
}

/// The digest that a message is signed over: the message itself when it
/// is exactly 32 bytes, its SHA-256 digest otherwise.
pub open spec fn digest_of(message: Seq<u8>) -> Seq<u8> {
    if message.len() == 32 {
        message
    } else {
        sha256_of(message)
    }
}

/// The 64-byte deterministic ECDSA signature over secp256k1 for a key and
/// a message, as the outside crate computes it (RFC 6979 nonce, low-s
/// normalized): a function of the two arguments alone.
pub uninterp spec fn ecdsa_sign_of(key: Seq<u8>, message: Seq<u8>) -> Seq<u8>;

/// Relies on k256::ecdsa::SigningKey::from_slice, which succeeds exactly
/// when the key bytes parse to a valid scalar (24 to 32 bytes,
/// left-padded, value in `1..order`), and on its `Signer` impl, which
/// produces the deterministic RFC 6979 signature over SHA-256 of `msg` as
/// 64 bytes.
#[verifier::external_body]
pub(crate) fn ecdsa_sign(msg: &[u8], key: &[u8]) -> (r: Option<Vec<u8>>)
    ensures
        r is Some <==> signing_key_ok(key@),
        r matches Some(sig) ==> sig@ == ecdsa_sign_of(key@, msg@) && sig@.len() == 64,
{
    let signing_key = match k256::ecdsa::SigningKey::from_slice(key) {
        Ok(k) => k,
        Err(_) => {
            return None;
        },
    };
    let signature: k256::ecdsa::Signature = signing_key.sign(msg);
    Some(signature.to_bytes().to_vec())
}

/// Signs a message with a transparent private key. Fails with
/// `InvalidKey` exactly when the key bytes do not parse to a valid
/// secp256k1 scalar; otherwise returns the 64-byte deterministic
/// signature over the message's digest, where a 32-byte message is itself
/// the digest.
pub fn sign_transparent(message: &[u8], private_key: &[u8]) -> (r: Result<Vec<u8>, KeyError>)
    ensures
        !signing_key_ok(private_key@) ==> r == Err::<Vec<u8>, KeyError>(KeyError::InvalidKey),
        signing_key_ok(private_key@) ==> (r matches Ok(sig) && sig@ == ecdsa_sign_of(
            private_key@,
            digest_of(message@),
        ) && sig@.len() == 64),
{
    let msg_hash: Vec<u8> = if message.len() == 32 {
        vstd::slice::slice_to_vec(message)
    } else {
        sha256(message)
    };
    match ecdsa_sign(msg_hash.as_slice(), private_key) {
        Some(sig) => Ok(sig),
        None => Err(KeyError::InvalidKey),
    }
}

} // verus!
