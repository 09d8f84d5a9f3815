//! The one cryptographic primitive the protocol leans on: a 32-byte
//! collision-resistant digest. The digest itself is outside code; everything
//! built on top of it is verified against the name `blake3_digest`.

use vstd::prelude::*;

verus! {

/// The digest that `blake3::hash` computes for a byte stream. It depends on
/// the input bytes alone; nothing more is assumed of it.
pub uninterp spec fn blake3_digest(input: Seq<u8>) -> Seq<u8>;

/// Relies on blake3::hash: the digest of a byte slice is 32 bytes and is a
/// deterministic function of the input bytes alone.
#[verifier::external_body]
pub fn hash_bytes(data: &Vec<u8>) -> (r: [u8; 32])
    ensures
        r@ == blake3_digest(data@),
{
    *blake3::hash(data.as_slice()).as_bytes()
}

/// Appends all 32 bytes of `b` to `data`, in order.
pub fn push_bytes32(data: &mut Vec<u8>, b: &[u8; 32])
    ensures
        final(data)@ == old(data)@ + b@,
{
    let ghost start = data@;
    let mut i: usize = 0;
    while i < 32
        invariant
            0 <= i <= 32,
            data@ == start + b@.subrange(0, i as int),
        decreases 32 - i,
    {
        data.push(b[i]);
        proof {
            assert(b@.subrange(0, i + 1 as int) =~= b@.subrange(0, i as int) + seq![b@[i as int]]);
        }
        i = i + 1;
    }
    proof {
        assert(b@.subrange(0, 32) =~= b@);
    }
}

/// True exactly when the two 32-byte values are equal.
pub fn bytes32_eq(a: &[u8; 32], b: &[u8; 32]) -> (r: bool)
    ensures
        r == (a@ == b@),
{
    let mut i: usize = 0;
    while i < 32
        invariant
            0 <= i <= 32,
            forall|j: int| 0 <= j < i ==> a@[j] == b@[j],
        decreases 32 - i,
    {
        if a[i] != b[i] {
            return false;
        }
        i = i + 1;
    }
    proof {
        assert(a@ =~= b@);
    }
    true
}

/// True exactly when every byte of `a` is zero.
pub fn bytes32_is_zero(a: &[u8; 32]) -> (r: bool)
    ensures
        r == (a@ == zero_bytes32()),
{
    let mut i: usize = 0;
    while i < 32
        invariant
            0 <= i <= 32,
            forall|j: int| 0 <= j < i ==> a@[j] == 0u8,
        decreases 32 - i,
    {
        if a[i] != 0 {
            return false;
        }
        i = i + 1;
    }
    proof {
        assert(a@ =~= zero_bytes32());
    }
    true
}

/// The all-zero 32-byte value, the state of a freshly initialized root.
pub open spec fn zero_bytes32() -> Seq<u8> {
    Seq::new(32, |i: int| 0u8)
}

} // verus!
