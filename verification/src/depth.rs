//! Ray parameters as ordered integers. A distance along a ray is a double;
//! the intersection logic only ever compares such distances, so it works on
//! keys: unsigned integers that are ordered as the doubles are. The key of a
//! double is computed from its 64-bit pattern (sign bit, then exponent and
//! mantissa as a magnitude).
use vstd::prelude::*;

verus! {

/// The sign bit of a 64-bit pattern.
pub const SIGN: u64 = 0x8000_0000_0000_0000;

/// The place of a bit pattern in the order of the numbers that the patterns
/// denote: a pattern without the sign bit stands at its magnitude, one with
/// the sign bit below zero, the larger its magnitude the lower. Minus zero
/// stands just below plus zero.
pub open spec fn rank(bits: u64) -> int {
    if bits < SIGN {
        bits as int
    } else {
        -(bits - SIGN) - 1
    }
}

/// The key of a bit pattern: its rank, shifted to start at zero.
pub open spec fn key_of(bits: u64) -> u64 {
    (rank(bits) + SIGN) as u64
}

/// The bit pattern that has the key `key`.
pub open spec fn bits_of(key: u64) -> u64 {
    if key >= SIGN {
        (key - SIGN) as u64
    } else {
        (u64::MAX - key) as u64
    }
}

/// The key of the double with the bit pattern `bits`.
pub fn depth_key(bits: u64) -> (key: u64)
    ensures
        key == key_of(bits),
{
    if bits & SIGN != 0 {
        assert(bits & 0x8000_0000_0000_0000 != 0 ==> bits >= 0x8000_0000_0000_0000 && !bits
            == 0xFFFF_FFFF_FFFF_FFFF - bits) by (bit_vector);
        !bits
    } else {
        assert(bits & 0x8000_0000_0000_0000 == 0 ==> bits < 0x8000_0000_0000_0000 && bits
            | 0x8000_0000_0000_0000 == bits + 0x8000_0000_0000_0000) by (bit_vector);
        bits | SIGN
    }
}

/// The bit pattern of the double with the key `key`.
pub fn key_bits(key: u64) -> (bits: u64)
    ensures
        bits == bits_of(key),
{
    if key & SIGN != 0 {
        assert(key & 0x8000_0000_0000_0000 != 0 ==> key >= 0x8000_0000_0000_0000 && key
            & 0x7FFF_FFFF_FFFF_FFFF == key - 0x8000_0000_0000_0000) by (bit_vector);
        key & 0x7FFF_FFFF_FFFF_FFFF
    } else {
        assert(key & 0x8000_0000_0000_0000 == 0 ==> key < 0x8000_0000_0000_0000 && !key
            == 0xFFFF_FFFF_FFFF_FFFF - key) by (bit_vector);
        !key
    }
}

/// Keys are ordered as ranks are, and distinct patterns have distinct keys.
pub proof fn lemma_key_order(a: u64, b: u64)
    ensures
        key_of(a) < key_of(b) <==> rank(a) < rank(b),
        key_of(a) == key_of(b) <==> a == b,
{
}

/// A key and its bit pattern determine each other.
pub proof fn lemma_key_round_trip(bits: u64, key: u64)
    ensures
        bits_of(key_of(bits)) == bits,
        key_of(bits_of(key)) == key,
{
}

/// Among patterns without the sign bit a larger magnitude has a larger key;
/// among patterns with it, a smaller one; and every pattern with the sign bit
/// has a smaller key than every pattern without.
pub proof fn lemma_key_by_sign(a: u64, b: u64)
    ensures
        a < SIGN && b < SIGN ==> (key_of(a) < key_of(b) <==> a < b),
        a >= SIGN && b >= SIGN ==> (key_of(a) < key_of(b) <==> a > b),
        a >= SIGN && b < SIGN ==> key_of(a) < key_of(b),
{
}

} // verus!
