use shielded_keys::{crh_ivk, derive_viewing_key, generate_spending_key, KeyError};

fn zero_seed() -> Vec<u8> {
    vec![0u8; 32]
}

// Seed whose expanded ask and nsk lanes are both canonical scalars, so the
// whole seed -> spending key -> viewing key -> address chain succeeds.
fn chain_seed() -> Vec<u8> {
    let mut s = vec![0u8; 32];
    s[0] = 48;
    s
}

#[test]
fn spending_key_golden_zero_seed() {
    let sk = generate_spending_key(&zero_seed()).unwrap();
    assert_eq!(
        hex::encode(&sk),
        "ca0d763f19a254c1c49599e50f5e0ca66a33f7e776b45a8d7d301d1f1098446599337abaa0cb8bdd69c213c71d0afc1c3ffe355bed7b0595055a685e931c51e798d16913d99b04177caba44f6e4d224e03b5ac031d7ce45e865138e1b996d63b"
    );
    assert_eq!(sk.len(), 96);
}

#[test]
fn spending_key_deterministic() {
    let s1 = vec![7u8; 32];
    let s2 = vec![7u8; 32];
    assert_eq!(
        generate_spending_key(&s1).unwrap(),
        generate_spending_key(&s2).unwrap()
    );
}

#[test]
fn spending_key_ignores_bytes_past_32() {
    let s1 = vec![7u8; 32];
    let mut s2 = vec![7u8; 32];
    s2.extend_from_slice(&[0xff, 0xee, 0xdd, 0xcc]);
    assert_eq!(
        generate_spending_key(&s1).unwrap(),
        generate_spending_key(&s2).unwrap()
    );
}

#[test]
fn spending_key_rejects_short_seed() {
    for n in [0usize, 1, 16, 31] {
        let seed = vec![3u8; n];
        assert_eq!(
            generate_spending_key(&seed),
            Err(KeyError::InputTooShort { need: 32, got: n })
        );
    }
}

#[test]
fn viewing_key_rejects_short_key() {
    let short = vec![1u8; 95];
    assert_eq!(
        derive_viewing_key(&short),
        Err(KeyError::InputTooShort { need: 96, got: 95 })
    );
}

#[test]
fn zero_seed_spending_key_is_not_canonical() {
    // Recorded reference outcome: the ask lane expanded from the all-zero
    // seed is not below the jubjub group order, so viewing-key derivation
    // refuses it.
    let sk = generate_spending_key(&zero_seed()).unwrap();
    assert_eq!(derive_viewing_key(&sk), Err(KeyError::InvalidScalar));
}

#[test]
fn viewing_key_golden_chain_seed() {
    let sk = generate_spending_key(&chain_seed()).unwrap();
    assert_eq!(
        hex::encode(&sk),
        "c3da6db8c30750a90ca6cdea7a032a54e6adf55b6ea0671fc876efcf6d2a6e0dbc95e8259f3468e189aa89e39e9eddbcf20e58752a9a9401fc95232165b30204d59d2cb7c21343285aff21c0349a0334a1037a69f511875340497a6a15c636f7"
    );
    let vk = derive_viewing_key(&sk).unwrap();
    assert_eq!(
        hex::encode(&vk),
        "7ddba558eec7682cc198264403a514847b3de9051ea29d582b1bf7debecf513c87b97a25edd1d8a179f07c3df9068ff02566e742665b613dd8d71241b44d274c091b67f669f6ad19ed1835d41bc4a305e5e9b46bcf4e55450778f26eb22b6601d59d2cb7c21343285aff21c0349a0334a1037a69f511875340497a6a15c636f7"
    );
    assert_eq!(vk.len(), 128);
    // ovk is carried over unchanged
    assert_eq!(&vk[96..128], &sk[64..96]);
    // byte 31 of ivk has its top five bits clear
    assert_eq!(vk[95] & 0xf8, 0);
}

#[test]
fn ivk_top_bits_clear() {
    for fill in [0x00u8, 0x55, 0xaa, 0xff] {
        let ak = vec![fill; 32];
        let nk = vec![fill ^ 0x0f; 32];
        let ivk = crh_ivk(&ak, &nk);
        assert_eq!(ivk.len(), 32);
        assert_eq!(ivk[31] & 0xf8, 0);
    }
}
