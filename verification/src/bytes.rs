//! Numbers and digests as bytes.

use vstd::prelude::*;
use vstd::slice::slice_subrange;

verus! {

/// The number that `bytes` stand for, lowest byte first.
pub open spec fn le_value(bytes: Seq<u8>) -> nat
    decreases bytes.len(),
{
    if bytes.len() == 0 {
        0
    } else {
        bytes[0] as nat + 256 * le_value(bytes.drop_first())
    }
}

/// Reads four bytes as a little-endian number.
pub fn le_u32(bytes: &[u8]) -> (v: u32)
    requires
        bytes@.len() == 4,
    ensures
        v == le_value(bytes@),
{
    proof {
        lemma_le_value_4(bytes@);
    }
    let b0: u32 = bytes[0] as u32;
    let b1: u32 = bytes[1] as u32;
    let b2: u32 = bytes[2] as u32;
    let b3: u32 = bytes[3] as u32;
    b0 + b1 * 0x100 + b2 * 0x1_0000 + b3 * 0x100_0000
}

/// Reads eight bytes as a little-endian number.
pub fn le_u64(bytes: &[u8]) -> (v: u64)
    requires
        bytes@.len() == 8,
    ensures
        v == le_value(bytes@),
{
    proof {
        lemma_le_value_4(bytes@.take(4));
        lemma_le_value_4(bytes@.skip(4));
        lemma_le_value_split(bytes@);
    }
    let lo: u64 = le_u32(slice_subrange(bytes, 0, 4)) as u64;
    let hi: u64 = le_u32(slice_subrange(bytes, 4, 8)) as u64;
    lo + hi * 0x1_0000_0000
}

proof fn lemma_le_value_4(bytes: Seq<u8>)
    requires
        bytes.len() == 4,
    ensures
        le_value(bytes) == bytes[0] + 0x100 * bytes[1] + 0x1_0000 * bytes[2] + 0x100_0000
            * bytes[3],
        le_value(bytes) < 0x1_0000_0000,
{
    reveal_with_fuel(le_value, 5);
    let s1 = bytes.drop_first();
    let s2 = s1.drop_first();
    let s3 = s2.drop_first();
    assert(s1[0] == bytes[1] && s2[0] == bytes[2] && s3[0] == bytes[3]);
}

proof fn lemma_le_value_split(bytes: Seq<u8>)
    requires
        bytes.len() == 8,
    ensures
        le_value(bytes) == le_value(bytes.take(4)) + 0x1_0000_0000 * le_value(bytes.skip(4)),
{
    lemma_le_value_4(bytes.take(4));
    reveal_with_fuel(le_value, 5);
    let s1 = bytes.drop_first();
    let s2 = s1.drop_first();
    let s3 = s2.drop_first();
    assert(s1[0] == bytes[1] && s2[0] == bytes[2] && s3[0] == bytes[3]);
    assert(s3.drop_first() == bytes.skip(4));
}

/// A number of `n` bytes is below 256 to the `n`: stated for the two widths
/// that a reply uses.
pub proof fn lemma_le_value_bound(bytes: Seq<u8>)
    ensures
        bytes.len() == 4 ==> le_value(bytes) < 0x1_0000_0000,
        bytes.len() == 8 ==> le_value(bytes) < 0x1_0000_0000_0000_0000,
{
    if bytes.len() == 4 {
        lemma_le_value_4(bytes);
    }
    if bytes.len() == 8 {
        lemma_le_value_4(bytes.take(4));
        lemma_le_value_4(bytes.skip(4));
        lemma_le_value_split(bytes);
    }
}

/// Whether two byte strings are equal. Strings of one length are compared
/// byte by byte to the end, wherever the first difference is.
pub fn digest_eq(a: &[u8], b: &[u8]) -> (eq: bool)
    ensures
        eq == (a@ == b@),
{
    if a.len() != b.len() {
        return false;
    }
    let mut diff: u8 = 0;
    let mut i: usize = 0;
    while i < a.len()
        invariant
            i <= a@.len(),
            a@.len() == b@.len(),
            diff == 0 <==> a@.take(i as int) =~= b@.take(i as int),
        decreases a@.len() - i,
    {
        let x: u8 = a[i];
        let y: u8 = b[i];
        let ghost before = diff;
        diff = diff | (x ^ y);
        assert((diff == 0) <==> (before == 0 && x == y)) by (bit_vector)
            requires
                diff == before | (x ^ y),
        ;
        proof {
            // Two prefixes one byte longer are equal exactly if the shorter
            // ones are and the bytes added are.
            let j = i as int;
            assert(a@.take(j + 1).drop_last() == a@.take(j));
            assert(b@.take(j + 1).drop_last() == b@.take(j));
            assert(a@.take(j + 1).last() == x && b@.take(j + 1).last() == y);
            assert(a@.take(j + 1) =~= a@.take(j).push(x));
            assert(b@.take(j + 1) =~= b@.take(j).push(y));
        }
        i = i + 1;
    }
    assert(a@.take(a@.len() as int) == a@);
    assert(b@.take(b@.len() as int) == b@);
    diff == 0
}

} // verus!
