use shielded_keys::{KeyError, Scalar};

fn order_le() -> Vec<u8> {
    hex::decode("b72cf7d65e0e97d08210c8cc932068a6003b3401013b6706a9af3365eab47d0e").unwrap()
}

#[test]
fn decode_rejects_group_order() {
    assert_eq!(
        Scalar::decode(&order_le()).err(),
        Some(KeyError::InvalidScalar)
    );
}

#[test]
fn decode_accepts_order_minus_one() {
    let mut bytes = order_le();
    bytes[0] -= 1;
    let s = Scalar::decode(&bytes).unwrap();
    assert_eq!(s.encode(), bytes);
}

#[test]
fn decode_rejects_wrong_length() {
    let short = vec![1u8; 31];
    assert_eq!(
        Scalar::decode(&short),
        Err(KeyError::InvalidInput { expected: 32, got: 31 })
    );
    let long = vec![1u8; 33];
    assert_eq!(
        Scalar::decode(&long),
        Err(KeyError::InvalidInput { expected: 32, got: 33 })
    );
}

#[test]
fn decode_accepts_zero_and_round_trips() {
    let zero = vec![0u8; 32];
    let s = Scalar::decode(&zero).unwrap();
    assert_eq!(s.encode(), zero);
}
