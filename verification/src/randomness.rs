//! Secure randomness.
//!
//! Both draws go to the operating environment's secure randomness source.
//! The source is treated as an always-available capability: if it is
//! absent the process aborts rather than returning weak or predictable
//! bytes. Nothing beyond length and canonicity can be promised of a
//! random result, and two calls on the same input may differ.

use vstd::prelude::*;

use group::ff::Field;
use crate::le_nat;
use crate::curve::jubjub_order;

verus! {

/// Relies on getrandom::getrandom: fills a buffer of exactly `length`
/// bytes from the operating environment's secure randomness source.
/// Absence of the source is a fatal environment fault and aborts the
/// process; no weak bytes are ever returned.
#[verifier::external_body]
pub fn random_bytes(length: usize) -> (r: Vec<u8>)
    ensures
        r@.len() == length,
{
    let mut bytes = vec![0u8; length];
    getrandom::getrandom(&mut bytes).unwrap();
    bytes
}

/// Relies on jubjub::Fr::random and Fr::to_bytes: draws a uniformly
/// random scalar strictly below the group order and returns its canonical
/// 32-byte little-endian encoding.
#[verifier::external_body]
pub fn random_scalar() -> (r: Vec<u8>)
    ensures
        r@.len() == 32,
        le_nat(r@) < jubjub_order(),
{
    let scalar = jubjub::Fr::random(&mut rand::rngs::OsRng);
    scalar.to_bytes().to_vec()
}

} // verus!
