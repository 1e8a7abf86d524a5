//! Big-endian byte decoding, the common ground of the ABI-shaped inputs
//! and outputs this crate checks.

use vstd::prelude::*;

verus! {

/// The big-endian value of a byte string.
pub open spec fn be_value(s: Seq<u8>) -> nat
    decreases s.len(),
{
    if s.len() == 0 {
        0
    } else {
        (be_value(s.drop_last()) * 256 + s.last()) as nat
    }
}

/// 256 to the n-th power.
pub open spec fn pow256(n: nat) -> nat
    decreases n,
{
    if n == 0 {
        1nat
    } else {
        256 * pow256((n - 1) as nat)
    }
}

/// A byte string's value is below 256^length.
pub proof fn lemma_be_value_bound(s: Seq<u8>)
    ensures
        be_value(s) < pow256(s.len()),
    decreases s.len(),
{
    if s.len() > 0 {
        lemma_be_value_bound(s.drop_last());
    }
}

/// Powers of 256 are monotone.
pub proof fn lemma_pow256_le(a: nat, b: nat)
    requires
        a <= b,
    ensures
        pow256(a) <= pow256(b),
    decreases b,
{
    if a < b && b > 0 {
        lemma_pow256_le(a, (b - 1) as nat);
    }
}

/// 256^16 is 2^128.
pub proof fn lemma_pow256_16()
    ensures
        pow256(16) == 0x1_0000_0000_0000_0000_0000_0000_0000_0000nat,
{
    reveal_with_fuel(pow256, 17);
}

/// Read `count` bytes (at most 16) starting at `start` as a big-endian
/// unsigned value.
pub fn read_be(data: &Vec<u8>, start: usize, count: usize) -> (r: u128)
    requires
        start + count <= data@.len(),
        count <= 16,
    ensures
        r == be_value(data@.subrange(start as int, start + count)),
{
    let n = data.len();
    let mut r: u128 = 0;
    let mut i: usize = 0;
    proof {
        assert(data@.subrange(start as int, start as int) =~= Seq::<u8>::empty());
    }
    while i < count
        invariant
            n == data@.len(),
            start + count <= n,
            count <= 16,
            i <= count,
            r == be_value(data@.subrange(start as int, start + i)),
            r < pow256(i as nat),
        decreases count - i,
    {
        let b = data[start + i];
        proof {
            lemma_pow256_le((i + 1) as nat, 16);
            lemma_pow256_16();
            let ext = data@.subrange(start as int, start + i + 1);
            assert(ext.drop_last() =~= data@.subrange(start as int, start + i));
            assert(ext.last() == data@[start + i]);
        }
        r = r * 256 + (b as u128);
        i = i + 1;
    }
    r
}

/// Whether every byte of `s` in `[from, to)` is zero.
pub open spec fn zero_range(s: Seq<u8>, from: int, to: int) -> bool {
    forall|i: int| from <= i < to ==> s[i] == 0
}

/// Check that every byte in `[from, to)` is zero.
pub fn check_zero_range(data: &Vec<u8>, from: usize, to: usize) -> (r: bool)
    requires
        from <= to <= data@.len(),
    ensures
        r == zero_range(data@, from as int, to as int),
{
    let mut i = from;
    while i < to
        invariant
            from <= i <= to <= data@.len(),
            forall|j: int| from <= j < i ==> data@[j] == 0,
        decreases to - i,
    {
        if data[i] != 0 {
            return false;
        }
        i = i + 1;
    }
    true
}

} // verus!
