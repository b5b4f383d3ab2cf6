//! Opaque 32-byte account identifiers.
//!
//! Persistent records reference each other by 32-byte public keys.  The
//! engine never interprets a key; it only compares keys and moves them
//! through the record layouts, so a key is stored as two 128-bit halves of
//! its little-endian byte string.

use vstd::prelude::*;
use vstd::bytes::{
    spec_u128_to_le_bytes, spec_u128_from_le_bytes, u128_from_le_bytes, u128_to_le_bytes,
    lemma_auto_spec_u128_to_from_le_bytes,
};
use vstd::slice::slice_subrange;

verus! {

/// A 32-byte account identifier.
#[derive(Clone, Copy, PartialEq, Eq, Structural, Debug)]
pub struct Key {
    /// First 16 bytes, little-endian.
    pub lo: u128,
    /// Last 16 bytes, little-endian.
    pub hi: u128,
}

/// The key whose 32-byte string is `s`.
pub open spec fn spec_key_of_bytes(s: Seq<u8>) -> Key {
    Key {
        lo: spec_u128_from_le_bytes(s.subrange(0, 16)),
        hi: spec_u128_from_le_bytes(s.subrange(16, 32)),
    }
}

/// Reading back the bytes a key was written as yields the same key.
pub proof fn lemma_key_of_bytes_of(k: Key)
    ensures
        spec_key_of_bytes(k.bytes()) == k,
{
    lemma_auto_spec_u128_to_from_le_bytes();
    assert(k.bytes().subrange(0, 16) =~= spec_u128_to_le_bytes(k.lo));
    assert(k.bytes().subrange(16, 32) =~= spec_u128_to_le_bytes(k.hi));
}

impl Key {
    /// The 32-byte string this key stands for.
    pub open spec fn bytes(self) -> Seq<u8> {
        spec_u128_to_le_bytes(self.lo) + spec_u128_to_le_bytes(self.hi)
    }

    pub proof fn lemma_bytes(self)
        ensures
            self.bytes().len() == 32,
    {
        lemma_auto_spec_u128_to_from_le_bytes();
    }

    /// Two keys are equal exactly when their byte strings are equal.
    pub proof fn lemma_bytes_injective(self, other: Self)
        ensures
            self.bytes() == other.bytes() <==> self == other,
    {
        lemma_auto_spec_u128_to_from_le_bytes();
        if self.bytes() == other.bytes() {
            assert(self.bytes().len() == 32 && other.bytes().len() == 32);
            assert(self.bytes().subrange(0, 16) =~= spec_u128_to_le_bytes(self.lo));
            assert(self.bytes().subrange(16, 32) =~= spec_u128_to_le_bytes(self.hi));
            assert(other.bytes().subrange(0, 16) =~= spec_u128_to_le_bytes(other.lo));
            assert(other.bytes().subrange(16, 32) =~= spec_u128_to_le_bytes(other.hi));
            assert(spec_u128_from_le_bytes(spec_u128_to_le_bytes(self.lo)) == self.lo);
            assert(spec_u128_from_le_bytes(spec_u128_to_le_bytes(other.lo)) == other.lo);
            assert(spec_u128_from_le_bytes(spec_u128_to_le_bytes(self.hi)) == self.hi);
            assert(spec_u128_from_le_bytes(spec_u128_to_le_bytes(other.hi)) == other.hi);
        }
    }

    /// The all-zero key, used for unset references.
    pub fn zero() -> (r: Self)
        ensures
            r == (Key { lo: 0, hi: 0 }),
    {
        Key { lo: 0, hi: 0 }
    }

    /// Builds a key from its two little-endian halves.
    pub fn new(lo: u128, hi: u128) -> (r: Self)
        ensures
            r == (Key { lo, hi }),
    {
        Key { lo, hi }
    }

    /// Reads a key from 32 bytes.
    pub fn from_bytes(b: &[u8]) -> (r: Self)
        requires
            b@.len() == 32,
        ensures
            r.bytes() == b@,
            r == spec_key_of_bytes(b@),
    {
        let lo = u128_from_le_bytes(slice_subrange(b, 0, 16));
        let hi = u128_from_le_bytes(slice_subrange(b, 16, 32));
        proof {
            lemma_auto_spec_u128_to_from_le_bytes();
            assert(spec_u128_to_le_bytes(spec_u128_from_le_bytes(b@.subrange(0, 16)))
                == b@.subrange(0, 16));
            assert(spec_u128_to_le_bytes(spec_u128_from_le_bytes(b@.subrange(16, 32)))
                == b@.subrange(16, 32));
            assert(b@.subrange(0, 16) + b@.subrange(16, 32) =~= b@);
        }
        Key { lo, hi }
    }

    /// Writes the key as its 32-byte string.
    pub fn to_bytes(&self) -> (r: Vec<u8>)
        ensures
            r@ == self.bytes(),
    {
        let mut out = u128_to_le_bytes(self.lo);
        let mut hi_bytes = u128_to_le_bytes(self.hi);
        out.append(&mut hi_bytes);
        out
    }
}

} // verus!
