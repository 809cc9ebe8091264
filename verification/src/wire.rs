//! Signed values on the wire.
//!
//! Mouse displacements and signal strengths are signed 8-bit values that
//! travel as single bytes in two's complement.

use vstd::prelude::*;

verus! {

/// The signed value that a wire byte stands for (two's complement).
pub open spec fn signed_of(b: u8) -> i8 {
    if b < 128 {
        b as i8
    } else {
        (b - 256) as i8
    }
}

/// The wire byte that stands for a signed value (two's complement).
pub open spec fn byte_of(v: i8) -> u8 {
    if v >= 0 {
        v as u8
    } else {
        (v + 256) as u8
    }
}

/// Reads a wire byte as a signed value.
pub(crate) fn to_signed(b: u8) -> (v: i8)
    ensures
        v == signed_of(b),
{
    let v = #[verifier::truncate] (b as i8);
    assert(v == signed_of(b)) by (bit_vector)
        requires
            v == b as i8,
    ;
    v
}

/// Writes a signed value as a wire byte.
pub(crate) fn to_byte(v: i8) -> (b: u8)
    ensures
        b == byte_of(v),
{
    let b = #[verifier::truncate] (v as u8);
    assert(b == byte_of(v)) by (bit_vector)
        requires
            b == v as u8,
    ;
    b
}

/// A signed value survives the trip through its wire byte.
pub proof fn lemma_signed_byte_roundtrip(v: i8)
    ensures
        signed_of(byte_of(v)) == v,
{
}

/// A wire byte survives the trip through its signed value.
pub proof fn lemma_byte_signed_roundtrip(b: u8)
    ensures
        byte_of(signed_of(b)) == b,
{
}

} // verus!
