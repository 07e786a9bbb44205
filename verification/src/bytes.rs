//! Little-endian encoding of 64-bit amounts.

use vstd::prelude::*;

verus! {

/// The amount that eight bytes encode, least significant byte first.
pub open spec fn le_u64(s: Seq<u8>) -> int
    recommends
        s.len() == 8,
{
    s[0] + 256 * (s[1] + 256 * (s[2] + 256 * (s[3] + 256 * (s[4] + 256 * (s[5] + 256 * (s[6] + 256
        * s[7]))))))
}

/// The eight bytes that encode an amount, least significant byte first.
pub open spec fn u64_le(x: u64) -> Seq<u8> {
    let x1 = x / 256;
    let x2 = x1 / 256;
    let x3 = x2 / 256;
    let x4 = x3 / 256;
    let x5 = x4 / 256;
    let x6 = x5 / 256;
    let x7 = x6 / 256;
    seq![
        (x % 256) as u8,
        (x1 % 256) as u8,
        (x2 % 256) as u8,
        (x3 % 256) as u8,
        (x4 % 256) as u8,
        (x5 % 256) as u8,
        (x6 % 256) as u8,
        (x7 % 256) as u8,
    ]
}

/// Eight bytes always encode an amount that fits in 64 bits.
pub proof fn lemma_le_u64_bounds(s: Seq<u8>)
    requires
        s.len() == 8,
    ensures
        0 <= le_u64(s) <= u64::MAX,
{
}

/// Decoding what was encoded gives the amount back.
pub proof fn lemma_le_u64_of_u64_le(x: u64)
    ensures
        u64_le(x).len() == 8,
        le_u64(u64_le(x)) == x,
{
}

/// Encoding what was decoded gives the bytes back.
pub proof fn lemma_u64_le_of_le_u64(s: Seq<u8>)
    requires
        s.len() == 8,
    ensures
        u64_le(le_u64(s) as u64) == s,
{
    lemma_le_u64_bounds(s);
    assert(u64_le(le_u64(s) as u64) =~= s);
}

/// Reads the amount stored in the eight bytes of `src` that start at `at`.
pub fn read_u64_le(src: &[u8], at: usize) -> (x: u64)
    requires
        at + 8 <= src@.len(),
    ensures
        x == le_u64(src@.subrange(at as int, at + 8)),
{
    let n = src.len();
    let ghost s = src@.subrange(at as int, at + 8);
    let x7: u64 = src[at + 7] as u64;
    let x6: u64 = x7 * 256 + src[at + 6] as u64;
    let x5: u64 = x6 * 256 + src[at + 5] as u64;
    let x4: u64 = x5 * 256 + src[at + 4] as u64;
    let x3: u64 = x4 * 256 + src[at + 3] as u64;
    let x2: u64 = x3 * 256 + src[at + 2] as u64;
    let x1: u64 = x2 * 256 + src[at + 1] as u64;
    let x0: u64 = x1 * 256 + src[at] as u64;
    assert(x7 == s[7] && x6 == s[6] + 256 * x7 && x5 == s[5] + 256 * x6 && x4 == s[4] + 256 * x5);
    assert(x3 == s[3] + 256 * x4 && x2 == s[2] + 256 * x3 && x1 == s[1] + 256 * x2 && x0 == s[0]
        + 256 * x1);
    x0
}

/// Stores an amount in the eight bytes of `dst` that start at `at`.
pub fn write_u64_le(dst: &mut Vec<u8>, at: usize, x: u64)
    requires
        at + 8 <= old(dst)@.len(),
    ensures
        final(dst)@.len() == old(dst)@.len(),
        final(dst)@.subrange(at as int, at + 8) == u64_le(x),
        forall|i: int|
            0 <= i < old(dst)@.len() && !(at <= i < at + 8) ==> final(dst)@[i] == old(dst)@[i],
{
    let n = dst.len();
    let x1: u64 = x / 256;
    let x2: u64 = x1 / 256;
    let x3: u64 = x2 / 256;
    let x4: u64 = x3 / 256;
    let x5: u64 = x4 / 256;
    let x6: u64 = x5 / 256;
    let x7: u64 = x6 / 256;
    dst[at] = (x % 256) as u8;
    dst[at + 1] = (x1 % 256) as u8;
    dst[at + 2] = (x2 % 256) as u8;
    dst[at + 3] = (x3 % 256) as u8;
    dst[at + 4] = (x4 % 256) as u8;
    dst[at + 5] = (x5 % 256) as u8;
    dst[at + 6] = (x6 % 256) as u8;
    dst[at + 7] = (x7 % 256) as u8;
    assert(dst@.subrange(at as int, at + 8) =~= u64_le(x));
}

} // verus!
