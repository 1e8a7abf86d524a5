//! Plain-value forms of the chain primitives: a 160-bit account address,
//! a 256-bit word (hashes, roots), and byte-string helpers.

use vstd::prelude::*;

verus! {

/// A 160-bit account address, held as a 32-bit high part and a 128-bit
/// low part. Equality is structural.
#[derive(Clone, Copy, Debug, PartialEq, Eq, Structural)]
pub struct Address {
    pub hi: u32,
    pub lo: u128,
}

impl Address {
    /// The zero address.
    pub fn zero() -> (r: Address)
        ensures
            r.hi == 0 && r.lo == 0,
    {
        Address { hi: 0, lo: 0 }
    }
}

/// A 256-bit word (a block hash, a transaction hash, a signal root),
/// held as two 128-bit halves. Equality is structural.
#[derive(Clone, Copy, Debug, PartialEq, Eq, Structural)]
pub struct B256 {
    pub hi: u128,
    pub lo: u128,
}

impl B256 {
    /// The all-zero word.
    pub fn zero() -> (r: B256)
        ensures
            r.hi == 0 && r.lo == 0,
    {
        B256 { hi: 0, lo: 0 }
    }
}

/// Left-align a byte string into a fixed 32-byte field: the first
/// `min(len, 32)` bytes are copied, the rest are zero.
pub fn string_to_bytes32(input: &[u8]) -> (r: [u8; 32])
    ensures
        forall|i: int|
            0 <= i < 32 ==> r[i] == (if i < input@.len() {
                input@[i]
            } else {
                0u8
            }),
{
    let mut bytes: [u8; 32] = [0u8; 32];
    let len: usize = if input.len() < 32 {
        input.len()
    } else {
        32
    };
    let mut i: usize = 0;
    while i < len
        invariant
            i <= len,
            len <= 32,
            len <= input@.len(),
            forall|j: int| 0 <= j < i ==> bytes[j] == input@[j],
            forall|j: int| i <= j < 32 ==> bytes[j] == 0u8,
        decreases len - i,
    {
        bytes[i] = input[i];
        i = i + 1;
    }
    bytes
}

} // verus!
