use k256::ecdsa::signature::Verifier;
use k256::ecdsa::{Signature, SigningKey, VerifyingKey};
use shielded_keys::{sign_transparent, KeyError};
use sha2::{Digest, Sha256};

fn sample_key() -> Vec<u8> {
    let mut k = vec![0u8; 32];
    k[31] = 0x2a;
    k[0] = 0x01;
    k
}

#[test]
fn sign_32_byte_message_verifies_as_digest() {
    // A 32-byte message is handed to the signer exactly as it stands, so
    // standard verification over that same message accepts the signature.
    let key = sample_key();
    let message = vec![0x5cu8; 32];
    let sig_bytes = sign_transparent(&message, &key).unwrap();
    assert_eq!(sig_bytes.len(), 64);

    let verifying_key = VerifyingKey::from(&SigningKey::from_slice(&key).unwrap());
    let signature = Signature::from_slice(&sig_bytes).unwrap();
    assert!(verifying_key.verify(&message, &signature).is_ok());
}

#[test]
fn sign_long_message_signs_its_sha256_digest() {
    let key = sample_key();
    let message = b"a transparent-pool message longer than thirty-two bytes".to_vec();
    let sig_bytes = sign_transparent(&message, &key).unwrap();

    let digest: Vec<u8> = Sha256::digest(&message).to_vec();
    let verifying_key = VerifyingKey::from(&SigningKey::from_slice(&key).unwrap());
    let signature = Signature::from_slice(&sig_bytes).unwrap();
    // The signature is over the SHA-256 digest of the message, not over
    // the message itself.
    assert!(verifying_key.verify(&digest, &signature).is_ok());
    assert!(verifying_key.verify(&message, &signature).is_err());
}

#[test]
fn sign_is_deterministic() {
    let key = sample_key();
    let message = vec![0x77u8; 32];
    assert_eq!(
        sign_transparent(&message, &key).unwrap(),
        sign_transparent(&message, &key).unwrap()
    );
}

#[test]
fn sign_rejects_invalid_keys() {
    let message = vec![1u8; 32];
    // zero scalar
    assert_eq!(
        sign_transparent(&message, &vec![0u8; 32]),
        Err(KeyError::InvalidKey)
    );
    // the group order itself, big-endian
    let order =
        hex::decode("fffffffffffffffffffffffffffffffebaaedce6af48a03bbfd25e8cd0364141").unwrap();
    assert_eq!(sign_transparent(&message, &order), Err(KeyError::InvalidKey));
    // too long and far too short
    assert_eq!(
        sign_transparent(&message, &vec![1u8; 33]),
        Err(KeyError::InvalidKey)
    );
    assert_eq!(
        sign_transparent(&message, &vec![1u8; 8]),
        Err(KeyError::InvalidKey)
    );
}

#[test]
fn sign_accepts_short_left_padded_key() {
    // 24 bytes are accepted and zero-padded on the left to the field size.
    let message = vec![9u8; 32];
    let short = vec![0x42u8; 24];
    let mut padded = vec![0u8; 8];
    padded.extend_from_slice(&short);
    assert_eq!(
        sign_transparent(&message, &short).unwrap(),
        sign_transparent(&message, &padded).unwrap()
    );
}
