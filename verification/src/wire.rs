//! The field-view primitive: typed accessors for named byte ranges inside a
//! raw buffer.  A field is a 32-bit unsigned word stored at a fixed byte
//! offset; every accessor proves that the range lies within the buffer.

use vstd::bytes::lemma_auto_spec_u32_to_from_le_bytes;
use vstd::bytes::spec_u32_from_le_bytes;
use vstd::bytes::spec_u32_to_le_bytes;
use vstd::bytes::u32_from_le_bytes;
use vstd::bytes::u32_to_le_bytes;
use vstd::prelude::*;
use vstd::slice::slice_subrange;
use vstd::slice::slice_to_vec;

verus! {

/// The 32-bit word stored in the four bytes `b`.
pub open spec fn u32_of(b: Seq<u8>) -> u32 {
    spec_u32_from_le_bytes(b)
}

/// The 32-bit word stored at byte offset `i` of `b`.
pub open spec fn u32_at(b: Seq<u8>, i: int) -> u32 {
    u32_of(b.subrange(i, i + 4))
}

/// The four bytes that store the 32-bit word `v`.
pub open spec fn u32_bytes(v: u32) -> Seq<u8> {
    spec_u32_to_le_bytes(v)
}

/// Facts every client of the byte-level word layout needs: a word occupies
/// four bytes, and storing then loading a word gives the word back.
pub proof fn lemma_u32_bytes()
    ensures
        forall|v: u32| (#[trigger] u32_bytes(v)).len() == 4,
        forall|v: u32| u32_of(#[trigger] u32_bytes(v)) == v,
        forall|b: Seq<u8>| b.len() == 4 ==> #[trigger] u32_bytes(u32_of(b)) == b,
{
    lemma_auto_spec_u32_to_from_le_bytes();
    assert forall|v: u32| u32_of(#[trigger] u32_bytes(v)) == v by {
        assert(spec_u32_to_le_bytes(v).len() == 4);
    }
    assert forall|b: Seq<u8>| b.len() == 4 implies #[trigger] u32_bytes(u32_of(b)) == b by {
        assert(spec_u32_to_le_bytes(spec_u32_from_le_bytes(b)) == b);
    }
}

/// Reads the 32-bit word stored at byte offset `i`.
pub fn read_u32_at(b: &Vec<u8>, i: usize) -> (r: u32)
    requires
        i + 4 <= b.len(),
    ensures
        r == u32_at(b@, i as int),
{
    let s = slice_subrange(b.as_slice(), i, i + 4);
    u32_from_le_bytes(s)
}

/// Stores the 32-bit word `v` at byte offset `i`, leaving every byte
/// outside the range `[i, i + 4)` unchanged.
pub fn write_u32_at(b: &mut Vec<u8>, i: usize, v: u32)
    requires
        i + 4 <= old(b).len(),
    ensures
        final(b).len() == old(b).len(),
        final(b)@.subrange(i as int, i + 4) == u32_bytes(v),
        forall|j: int| 0 <= j < old(b).len() && !(i <= j < i + 4) ==> final(b)@[j] == old(b)@[j],
        u32_at(final(b)@, i as int) == v,
{
    proof {
        lemma_u32_bytes();
    }
    let bytes = u32_to_le_bytes(v);
    b[i] = bytes[0];
    b[i + 1] = bytes[1];
    b[i + 2] = bytes[2];
    b[i + 3] = bytes[3];
    proof {
        assert(b@.subrange(i as int, i + 4) =~= u32_bytes(v));
        lemma_auto_spec_u32_to_from_le_bytes();
    }
}

/// Copies all of `src` into `b` starting at byte offset `i`, leaving every
/// byte outside the range `[i, i + src.len())` unchanged.
pub fn write_bytes_at(b: &mut Vec<u8>, i: usize, src: &Vec<u8>)
    requires
        i + src.len() <= old(b).len(),
    ensures
        final(b).len() == old(b).len(),
        final(b)@.subrange(i as int, i + src.len()) == src@,
        forall|j: int|
            0 <= j < old(b).len() && !(i <= j < i + src.len()) ==> final(b)@[j] == old(b)@[j],
{
    let mut k: usize = 0;
    while k < src.len()
        invariant
            k <= src.len(),
            i + src.len() <= b.len(),
            b.len() == old(b).len(),
            forall|j: int| 0 <= j < k ==> b@[i + j] == src@[j],
            forall|j: int|
                0 <= j < old(b).len() && !(i <= j < i + src.len()) ==> b@[j] == old(b)@[j],
        decreases src.len() - k,
    {
        b[i + k] = src[k];
        k = k + 1;
    }
    proof {
        assert(b@.subrange(i as int, i + src.len()) =~= src@);
    }
}

/// Copies the `n` bytes starting at offset `i` of `b` into a fresh buffer.
pub fn read_bytes_at(b: &Vec<u8>, i: usize, n: usize) -> (r: Vec<u8>)
    requires
        i + n <= b.len(),
    ensures
        r@ == b@.subrange(i as int, i + n),
{
    let s = slice_subrange(b.as_slice(), i, i + n);
    slice_to_vec(s)
}

/// What writing the word `value` at byte offset `off` does to a buffer:
/// those four bytes now store `value` and every other byte is unchanged.
pub open spec fn set_word_post(pre: Seq<u8>, post: Seq<u8>, off: int, value: u32) -> bool {
    &&& post.len() == pre.len()
    &&& post.subrange(off, off + 4) == u32_bytes(value)
    &&& u32_at(post, off) == value
    &&& forall|j: int| 0 <= j < pre.len() && !(off <= j < off + 4) ==> post[j] == pre[j]
}

/// Allocates a buffer of `n` zero bytes.
pub fn zeroed(n: usize) -> (r: Vec<u8>)
    ensures
        r.len() == n,
        forall|j: int| 0 <= j < n ==> r@[j] == 0u8,
{
    let mut v: Vec<u8> = Vec::new();
    while v.len() < n
        invariant
            v.len() <= n,
            forall|j: int| 0 <= j < v.len() ==> v@[j] == 0u8,
        decreases n - v.len(),
    {
        v.push(0u8);
    }
    v
}

} // verus!
