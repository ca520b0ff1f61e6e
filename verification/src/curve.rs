//! The jubjub curve, seen as plain bytes.
//!
//! Scalars are canonical 32-byte little-endian encodings strictly below the
//! group order; points are 32-byte compressed encodings. The group
//! arithmetic itself lives in the outside crate; its results are named by
//! uninterpreted spec functions, so every contract that speaks of a derived
//! key pins the exact bytes the outside crate would produce.

use vstd::prelude::*;

use group::{Group, GroupEncoding};
use crate::le_nat;
use crate::errors::KeyError;

verus! {

/// The order of the jubjub scalar field.
pub open spec fn jubjub_order() -> nat {
    0x0e7db4ea6533afa906673b0101343b00a6682093ccc81082d0970e5ed6f72cb7nat
}

/// A byte encoding is a canonical scalar when it is 32 bytes long and its
/// little-endian value is strictly below the group order.
pub open spec fn scalar_canonical(b: Seq<u8>) -> bool {
    b.len() == 32 && le_nat(b) < jubjub_order()
}

/// The 32-byte compressed encoding of the fixed base generator multiplied
/// by the scalar whose canonical encoding is `s`.
pub uninterp spec fn generator_mul_of(s: Seq<u8>) -> Seq<u8>;

/// Whether 32 bytes decode to a valid point of the prime-order subgroup.
pub uninterp spec fn point_valid(b: Seq<u8>) -> bool;

/// The 32-byte compressed encoding of the subgroup point encoded by `p`
/// multiplied by the scalar whose canonical encoding is `s`.
pub uninterp spec fn point_mul_of(p: Seq<u8>, s: Seq<u8>) -> Seq<u8>;

/// Relies on jubjub::Fr::from_bytes: it succeeds exactly when the
/// little-endian value of the 32 bytes is smaller than the group order.
#[verifier::external_body]
pub(crate) fn scalar_decode_ok(b: &[u8]) -> (r: bool)
    requires
        b@.len() == 32,
    ensures
        r <==> le_nat(b@) < jubjub_order(),
{
    let mut arr = [0u8; 32];
    arr.copy_from_slice(b);
    bool::from(jubjub::Fr::from_bytes(&arr).is_some())
}

/// Relies on jubjub: multiplies the fixed base generator of the extended
/// point group by the canonical scalar `s` and returns the 32-byte
/// compressed encoding. The result depends on `s` alone; the unwraps
/// cannot fail because `s` is canonical by precondition.
#[verifier::external_body]
pub(crate) fn generator_mul(s: &[u8]) -> (r: Vec<u8>)
    requires
        scalar_canonical(s@),
    ensures
        r@ == generator_mul_of(s@),
        r@.len() == 32,
{
    let mut arr = [0u8; 32];
    arr.copy_from_slice(s);
    let fr = jubjub::Fr::from_bytes(&arr).unwrap();
    (jubjub::ExtendedPoint::generator() * fr).to_bytes().to_vec()
}

/// Relies on jubjub::SubgroupPoint::from_bytes: it succeeds exactly when
/// the 32 bytes are the canonical encoding of a point of the prime-order
/// subgroup.
#[verifier::external_body]
pub(crate) fn point_decode_ok(b: &[u8]) -> (r: bool)
    requires
        b@.len() == 32,
    ensures
        r <==> point_valid(b@),
{
    let mut arr = [0u8; 32];
    arr.copy_from_slice(b);
    bool::from(jubjub::SubgroupPoint::from_bytes(&arr).is_some())
}

/// Relies on jubjub: decodes `p` as a subgroup point and `s` as a scalar
/// (both valid by precondition, so the unwraps cannot fail), multiplies
/// them and returns the 32-byte compressed encoding. The result depends on
/// `p` and `s` alone.
#[verifier::external_body]
pub(crate) fn point_mul(p: &[u8], s: &[u8]) -> (r: Vec<u8>)
    requires
        p@.len() == 32,
        point_valid(p@),
        scalar_canonical(s@),
    ensures
        r@ == point_mul_of(p@, s@),
        r@.len() == 32,
{
    let mut pa = [0u8; 32];
    pa.copy_from_slice(p);
    let mut sa = [0u8; 32];
    sa.copy_from_slice(s);
    let point = jubjub::SubgroupPoint::from_bytes(&pa).unwrap();
    let fr = jubjub::Fr::from_bytes(&sa).unwrap();
    (point * fr).to_bytes().to_vec()
}

/// A scalar of the jubjub scalar field, held as its canonical 32-byte
/// little-endian encoding.
#[derive(Debug, Clone, PartialEq, Eq)]
pub struct Scalar {
    bytes: Vec<u8>,
}

impl Scalar {
    /// The canonical encoding this scalar was decoded from.
    pub closed spec fn view(&self) -> Seq<u8> {
        self.bytes@
    }

    /// Well-formedness: the held bytes are a canonical scalar encoding.
    pub closed spec fn wf(&self) -> bool {
        scalar_canonical(self.bytes@)
    }

    /// Canonical 32-byte to scalar conversion: accepts exactly the
    /// little-endian encodings of values strictly below the group order,
    /// so the encoding of the order itself is rejected.
    pub fn decode(bytes: &[u8]) -> (r: Result<Scalar, KeyError>)
        ensures
            bytes@.len() != 32 ==> r == Err::<Scalar, KeyError>(KeyError::InvalidInput {
                expected: 32usize,
                got: bytes@.len() as usize,
            }),
            bytes@.len() == 32 && le_nat(bytes@) >= jubjub_order() ==> r == Err::<
                Scalar,
                KeyError,
            >(KeyError::InvalidScalar),
            scalar_canonical(bytes@) ==> (r matches Ok(s) && s@ == bytes@ && s.wf()),
    {
        if bytes.len() != 32 {
            return Err(KeyError::InvalidInput { expected: 32, got: bytes.len() });
        }
        if !scalar_decode_ok(bytes) {
            return Err(KeyError::InvalidScalar);
        }
        let mut v: Vec<u8> = Vec::new();
        let mut i: usize = 0;
        while i < bytes.len()
            invariant
                i <= bytes@.len(),
                v@ == bytes@.take(i as int),
            decreases bytes@.len() - i,
        {
            v.push(bytes[i]);
            i = i + 1;
        }
        proof {
            assert(v@ =~= bytes@);
        }
        Ok(Scalar { bytes: v })
    }

    /// The deterministic inverse of `decode` on accepted values: returns
    /// the canonical 32-byte encoding the scalar was decoded from.
    pub fn encode(&self) -> (r: Vec<u8>)
        requires
            self.wf(),
        ensures
            r@ == self@,
            scalar_canonical(r@),
    {
        let mut v: Vec<u8> = Vec::new();
        let mut i: usize = 0;
        while i < self.bytes.len()
            invariant
                i <= self.bytes@.len(),
                v@ == self.bytes@.take(i as int),
                self.bytes@ == self@,
            decreases self.bytes@.len() - i,
        {
            v.push(self.bytes[i]);
            i = i + 1;
        }
        proof {
            assert(v@ =~= self@);
        }
        v
    }
}

} // verus!
