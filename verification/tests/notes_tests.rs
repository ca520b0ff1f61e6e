use shielded_keys::{blake2b_hash, compute_note_commitment, compute_nullifier, pedersen_hash, prf_expand, KeyError};

#[test]
fn note_commitment_golden_zero_note() {
    let commitment =
        compute_note_commitment(&vec![0u8; 11], &vec![0u8; 32], 0, &vec![0u8; 32]).unwrap();
    assert_eq!(
        hex::encode(&commitment),
        "070cabe760c2dd44d522223b002d492ab3d24589873eb95232ad171ccaa33d84"
    );
}

#[test]
fn note_commitment_rejects_wrong_lengths() {
    let d = vec![0u8; 11];
    let pk_d = vec![0u8; 32];
    let rcm = vec![0u8; 32];
    assert_eq!(
        compute_note_commitment(&vec![0u8; 10], &pk_d, 5, &rcm),
        Err(KeyError::InvalidInput { expected: 11, got: 10 })
    );
    assert_eq!(
        compute_note_commitment(&d, &vec![0u8; 31], 5, &rcm),
        Err(KeyError::InvalidInput { expected: 32, got: 31 })
    );
    assert_eq!(
        compute_note_commitment(&d, &pk_d, 5, &vec![0u8; 33]),
        Err(KeyError::InvalidInput { expected: 32, got: 33 })
    );
}

#[test]
fn note_commitment_avalanche_on_bit_flips() {
    // Flipping any single bit of the note's byte fields changes the
    // commitment; a batch over every bit of every field stands in for the
    // statistical avalanche property.
    let d = vec![0x11u8; 11];
    let pk_d = vec![0x22u8; 32];
    let value = 77u64;
    let rcm = vec![0x33u8; 32];
    let base = compute_note_commitment(&d, &pk_d, value, &rcm).unwrap();

    for byte in 0..11 {
        for bit in 0..8 {
            let mut d2 = d.clone();
            d2[byte] ^= 1 << bit;
            let c = compute_note_commitment(&d2, &pk_d, value, &rcm).unwrap();
            assert_ne!(c, base);
        }
    }
    for byte in 0..32 {
        for bit in 0..8 {
            let mut pk2 = pk_d.clone();
            pk2[byte] ^= 1 << bit;
            let c = compute_note_commitment(&d, &pk2, value, &rcm).unwrap();
            assert_ne!(c, base);

            let mut rcm2 = rcm.clone();
            rcm2[byte] ^= 1 << bit;
            let c = compute_note_commitment(&d, &pk_d, value, &rcm2).unwrap();
            assert_ne!(c, base);
        }
    }
    for bit in 0..64 {
        let c = compute_note_commitment(&d, &pk_d, value ^ (1u64 << bit), &rcm).unwrap();
        assert_ne!(c, base);
    }
}

#[test]
fn nullifier_golden() {
    let cm = vec![0xbbu8; 32];
    let nk = vec![0xaau8; 32];
    let nf = compute_nullifier(&cm, &nk, 42).unwrap();
    assert_eq!(
        hex::encode(&nf),
        "0e7125d0071ecc6db20c6f6df384d000cd869bdf475dc92a924a66b3fce368c6"
    );
}

#[test]
fn nullifier_depends_on_position() {
    let cm = vec![0xbbu8; 32];
    let nk = vec![0xaau8; 32];
    assert_ne!(
        compute_nullifier(&cm, &nk, 0).unwrap(),
        compute_nullifier(&cm, &nk, 1).unwrap()
    );
}

#[test]
fn nullifier_rejects_wrong_lengths() {
    assert_eq!(
        compute_nullifier(&vec![0u8; 31], &vec![0u8; 32], 0),
        Err(KeyError::InvalidInput { expected: 32, got: 31 })
    );
    assert_eq!(
        compute_nullifier(&vec![0u8; 32], &vec![0u8; 33], 0),
        Err(KeyError::InvalidInput { expected: 32, got: 33 })
    );
}

#[test]
fn pedersen_hash_golden() {
    let out = pedersen_hash(b"test", b"hello");
    assert_eq!(
        hex::encode(&out),
        "5a436c9079d1803dd295c02b9dc7a6b82ae74db994d7844797f9c4104917432b"
    );
}

#[test]
fn blake2b_hash_golden() {
    let out = blake2b_hash(b"test-data", b"demo");
    assert_eq!(
        hex::encode(&out),
        "41e077351ad3ef8d1abeee7fb0cc5a58f16879c36cbff017501dbb31a6bf78f4"
    );
}

#[test]
fn blake2b_hash_truncates_long_personalization() {
    let long: Vec<u8> = (1u8..=20).collect();
    let first16: Vec<u8> = (1u8..=16).collect();
    assert_eq!(blake2b_hash(b"xyz", &long), blake2b_hash(b"xyz", &first16));
    assert_eq!(
        hex::encode(blake2b_hash(b"xyz", &long)),
        "66d6232c88a38f82e9f18b2e4e678306483d3048666d5ed29fd04f4de8f689d0"
    );
}

#[test]
fn prf_expand_golden() {
    let key = vec![0x11u8; 32];
    let out = prf_expand(&key, &[0x05]);
    assert_eq!(
        hex::encode(&out),
        "5eae704400c7e97d7e64ded9816ede587daab45759afc8e58346452b2aa122a0"
    );
}
