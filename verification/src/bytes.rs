//! Fixed-width integers as byte sequences.
//!
//! The guest-visible structures of this crate are laid out byte by byte. This
//! module gives the two byte orders they use a meaning on sequences, and the
//! executable functions that produce and consume them.
use vstd::prelude::*;

verus! {

/// The two bytes of `x`, least significant first.
pub open spec fn le16(x: u16) -> Seq<u8> {
    seq![(x % 256) as u8, (x / 256) as u8]
}

/// The four bytes of `x`, least significant first.
pub open spec fn le32(x: u32) -> Seq<u8> {
    seq![
        (x % 256) as u8,
        (x / 256 % 256) as u8,
        (x / 65536 % 256) as u8,
        (x / 16777216) as u8,
    ]
}

/// The eight bytes of `x`, least significant first.
pub open spec fn le64(x: u64) -> Seq<u8> {
    le32((x % 0x1_0000_0000) as u32) + le32((x / 0x1_0000_0000) as u32)
}

/// The two bytes of `x`, most significant first.
pub open spec fn be16(x: u16) -> Seq<u8> {
    seq![(x / 256) as u8, (x % 256) as u8]
}

/// The four bytes of `x`, most significant first.
pub open spec fn be32(x: u32) -> Seq<u8> {
    seq![
        (x / 16777216) as u8,
        (x / 65536 % 256) as u8,
        (x / 256 % 256) as u8,
        (x % 256) as u8,
    ]
}

/// The number whose little-endian bytes are `s`.
pub open spec fn le_value(s: Seq<u8>) -> nat
    decreases s.len(),
{
    if s.len() == 0 {
        0
    } else {
        s[0] as nat + 256 * le_value(s.drop_first())
    }
}

/// The number whose big-endian bytes are `s`.
pub open spec fn be_value(s: Seq<u8>) -> nat
    decreases s.len(),
{
    if s.len() == 0 {
        0
    } else {
        256 * be_value(s.drop_last()) + s.last() as nat
    }
}

/// A run of `n` zero bytes.
pub open spec fn zeros(n: nat) -> Seq<u8> {
    Seq::new(n, |i: int| 0u8)
}

/// The low 32 bits of `x`.
pub open spec fn low32(x: int) -> u32 {
    (x % 0x1_0000_0000) as u32
}

proof fn lemma_be_value_step(s: Seq<u8>)
    requires
        s.len() > 0,
    ensures
        be_value(s) == 256 * be_value(s.drop_last()) + s.last() as nat,
{
}

/// Reading four big-endian bytes digit by digit.
pub proof fn lemma_be_value4(s: Seq<u8>)
    requires
        s.len() == 4,
    ensures
        be_value(s) == 16777216 * s[0] + 65536 * s[1] + 256 * s[2] + s[3],
{
    let s3 = s.drop_last();
    let s2 = s3.drop_last();
    let s1 = s2.drop_last();
    lemma_be_value_step(s);
    lemma_be_value_step(s3);
    lemma_be_value_step(s2);
    lemma_be_value_step(s1);
    assert(be_value(s1.drop_last()) == 0);
}

/// Reading two little-endian bytes digit by digit.
pub proof fn lemma_le_value2(s: Seq<u8>)
    requires
        s.len() == 2,
    ensures
        le_value(s) == s[0] + 256 * s[1],
{
    let s1 = s.drop_first();
    assert(le_value(s1.drop_first()) == 0);
    assert(le_value(s1) == s1[0] as nat);
    assert(le_value(s) == s[0] as nat + 256 * le_value(s1));
}

/// Reading four little-endian bytes digit by digit.
pub proof fn lemma_le_value4(s: Seq<u8>)
    requires
        s.len() == 4,
    ensures
        le_value(s) == s[0] + 256 * s[1] + 65536 * s[2] + 16777216 * s[3],
{
    let s1 = s.drop_first();
    let s2 = s1.drop_first();
    assert(s2[0] == s[2] && s2[1] == s[3]);
    lemma_le_value2(s2);
    assert(le_value(s1) == s1[0] as nat + 256 * le_value(s2));
    assert(le_value(s) == s[0] as nat + 256 * le_value(s1));
}

/// Big-endian bytes of a 32-bit number read back as that number.
pub proof fn lemma_be32_value(x: u32)
    ensures
        be32(x).len() == 4,
        be_value(be32(x)) == x,
{
    lemma_be_value4(be32(x));
}

/// Four bytes are the big-endian bytes of the number that they are read as.
pub proof fn lemma_be_value_bytes(s: Seq<u8>)
    requires
        s.len() == 4,
    ensures
        be_value(s) <= u32::MAX,
        be32(be_value(s) as u32) == s,
{
    lemma_be_value4(s);
    let x = be_value(s) as u32;
    assert(x / 16777216 == s[0]);
    assert(x / 65536 == 256 * s[0] + s[1]);
    assert(x / 256 == 65536 * s[0] + 256 * s[1] + s[2]);
    assert(be32(x) =~= s);
}

/// Reading eight little-endian bytes as two numbers of four.
pub proof fn lemma_le_value8(s: Seq<u8>)
    requires
        s.len() == 8,
    ensures
        le_value(s) == le_value(s.take(4)) + 0x1_0000_0000 * le_value(s.skip(4)),
{
    let s1 = s.drop_first();
    let s2 = s1.drop_first();
    let s3 = s2.drop_first();
    let s4 = s3.drop_first();
    assert(s4 =~= s.skip(4));
    lemma_le_value4(s.take(4));
    assert(le_value(s3) == s3[0] as nat + 256 * le_value(s4));
    assert(le_value(s2) == s2[0] as nat + 256 * le_value(s3));
    assert(le_value(s1) == s1[0] as nat + 256 * le_value(s2));
    assert(le_value(s) == s[0] as nat + 256 * le_value(s1));
}

proof fn lemma_le32_value(x: u32)
    ensures
        le32(x).len() == 4,
        le_value(le32(x)) == x,
{
    lemma_le_value4(le32(x));
}

proof fn lemma_le64_value(x: u64)
    ensures
        le64(x).len() == 8,
        le_value(le64(x)) == x,
{
    let low = (x % 0x1_0000_0000) as u32;
    let high = (x / 0x1_0000_0000) as u32;
    lemma_le_value8(le64(x));
    assert(le64(x).take(4) =~= le32(low));
    assert(le64(x).skip(4) =~= le32(high));
    lemma_le32_value(low);
    lemma_le32_value(high);
}

proof fn lemma_be16_value(x: u16)
    ensures
        be16(x).len() == 2,
        be_value(be16(x)) == x,
{
    let s = be16(x);
    assert(be_value(s.drop_last().drop_last()) == 0);
    assert(be_value(s.drop_last()) == s[0] as nat);
    assert(be_value(s) == 256 * be_value(s.drop_last()) + s[1] as nat);
}

/// Every 16-bit number is read back from its bytes, in both byte orders, and
/// has the first or the last of them as its lowest digit.
pub proof fn law_16bit_numbers_are_read_back(x: u16)
    ensures
        le16(x).len() == 2 && le_value(le16(x)) == x && le16(x)[0] == x % 256,
        be16(x).len() == 2 && be_value(be16(x)) == x && be16(x)[1] == x % 256,
{
    lemma_le_value2(le16(x));
    lemma_be16_value(x);
}

/// Every 32-bit number is read back from its bytes, in both byte orders, and
/// has the first or the last of them as its lowest digit.
pub proof fn law_32bit_numbers_are_read_back(x: u32)
    ensures
        le32(x).len() == 4 && le_value(le32(x)) == x && le32(x)[0] == x % 256,
        be32(x).len() == 4 && be_value(be32(x)) == x && be32(x)[3] == x % 256,
{
    lemma_le32_value(x);
    lemma_be32_value(x);
}

/// Every 64-bit number is read back from its bytes, and the first four of them
/// are those of its lower half.
pub proof fn law_64bit_numbers_are_read_back(x: u64)
    ensures
        le64(x).len() == 8 && le_value(le64(x)) == x,
        le64(x).take(4) == le32(low32(x as int)),
{
    lemma_le64_value(x);
    assert(le64(x).take(4) =~= le32(low32(x as int)));
}

/// The low 32 bits of a number differ from it by a multiple of 2 to the power
/// of 32, and are the number itself if it is small enough. A run of zeros is
/// as long as it is said to be.
pub proof fn law_low_bits_and_zeros(x: int, n: nat, i: int)
    requires
        x >= 0,
        0 <= i < n,
    ensures
        (x - low32(x)) % 0x1_0000_0000 == 0,
        x <= u32::MAX ==> low32(x) == x,
        zeros(n).len() == n,
        zeros(n)[i] == 0,
{
}

/// The low 32 bits of `x`, as a cast keeps them.
pub fn truncate32(x: u64) -> (r: u32)
    ensures
        r == low32(x as int),
{
    (x % 0x1_0000_0000) as u32
}

/// Appends the two bytes of `x`, most significant first.
pub fn push_be16(out: &mut Vec<u8>, x: u16)
    ensures
        final(out)@ == old(out)@ + be16(x),
{
    out.push((x / 256) as u8);
    out.push((x % 256) as u8);
    assert(out@ =~= old(out)@ + be16(x));
}

/// Appends the four bytes of `x`, most significant first.
pub fn push_be32(out: &mut Vec<u8>, x: u32)
    ensures
        final(out)@ == old(out)@ + be32(x),
{
    out.push((x / 16777216) as u8);
    out.push((x / 65536 % 256) as u8);
    out.push((x / 256 % 256) as u8);
    out.push((x % 256) as u8);
    assert(out@ =~= old(out)@ + be32(x));
}

/// Appends the two bytes of `x`, least significant first.
pub fn push_le16(out: &mut Vec<u8>, x: u16)
    ensures
        final(out)@ == old(out)@ + le16(x),
{
    out.push((x % 256) as u8);
    out.push((x / 256) as u8);
    assert(out@ =~= old(out)@ + le16(x));
}

/// Appends the four bytes of `x`, least significant first.
pub fn push_le32(out: &mut Vec<u8>, x: u32)
    ensures
        final(out)@ == old(out)@ + le32(x),
{
    out.push((x % 256) as u8);
    out.push((x / 256 % 256) as u8);
    out.push((x / 65536 % 256) as u8);
    out.push((x / 16777216) as u8);
    assert(out@ =~= old(out)@ + le32(x));
}

/// Appends the eight bytes of `x`, least significant first.
pub fn push_le64(out: &mut Vec<u8>, x: u64)
    ensures
        final(out)@ == old(out)@ + le64(x),
{
    push_le32(out, (x % 0x1_0000_0000) as u32);
    push_le32(out, (x / 0x1_0000_0000) as u32);
    assert(out@ =~= old(out)@ + le64(x));
}

/// Appends `n` zero bytes.
pub fn push_zeros(out: &mut Vec<u8>, n: usize)
    ensures
        final(out)@ == old(out)@ + zeros(n as nat),
{
    let ghost before = out@;
    let mut i: usize = 0;
    while i < n
        invariant
            i <= n,
            out@ =~= before + zeros(i as nat),
        decreases n - i,
    {
        out.push(0);
        i = i + 1;
    }
}

/// Appends all bytes of `src`.
pub fn push_all(out: &mut Vec<u8>, src: &[u8])
    ensures
        final(out)@ == old(out)@ + src@,
{
    let ghost before = out@;
    let n: usize = src.len();
    let mut i: usize = 0;
    while i < n
        invariant
            i <= n,
            n == src@.len(),
            out@ =~= before + src@.subrange(0, i as int),
        decreases n - i,
    {
        out.push(src[i]);
        i = i + 1;
    }
    assert(src@.subrange(0, n as int) =~= src@);
}

/// The number in four big-endian bytes.
pub fn read_be32(s: &[u8]) -> (x: u32)
    requires
        s@.len() == 4,
    ensures
        x == be_value(s@),
{
    proof {
        lemma_be_value4(s@);
    }
    (s[0] as u32) * 16777216 + (s[1] as u32) * 65536 + (s[2] as u32) * 256 + (s[3] as u32)
}

/// The number in two little-endian bytes.
pub fn read_le16(s: &[u8]) -> (x: u16)
    requires
        s@.len() == 2,
    ensures
        x == le_value(s@),
{
    proof {
        lemma_le_value2(s@);
    }
    (s[0] as u16) + (s[1] as u16) * 256
}

/// The number in four little-endian bytes.
pub fn read_le32(s: &[u8]) -> (x: u32)
    requires
        s@.len() == 4,
    ensures
        x == le_value(s@),
{
    proof {
        lemma_le_value4(s@);
    }
    (s[0] as u32) + (s[1] as u32) * 256 + (s[2] as u32) * 65536 + (s[3] as u32) * 16777216
}

/// Overwrites the front of `dst` with `src`.
pub fn copy_prefix(dst: &mut [u8], src: &[u8])
    requires
        src@.len() <= old(dst)@.len(),
    ensures
        final(dst)@ == src@ + old(dst)@.skip(src@.len() as int),
{
    let ghost before = dst@;
    let n: usize = src.len();
    let mut i: usize = 0;
    while i < n
        invariant
            i <= n,
            n == src@.len(),
            n <= dst@.len(),
            dst@.len() == before.len(),
            forall|k: int| 0 <= k < i ==> dst@[k] == src@[k],
            forall|k: int| i <= k < before.len() ==> dst@[k] == before[k],
        decreases n - i,
    {
        dst[i] = src[i];
        i = i + 1;
    }
    assert(dst@ =~= src@ + before.skip(n as int));
}

/// Clears every byte of `dst` from position `from` on.
pub fn zero_from(dst: &mut [u8], from: usize)
    requires
        from <= old(dst)@.len(),
    ensures
        final(dst)@ == old(dst)@.take(from as int) + zeros((old(dst)@.len() - from) as nat),
{
    let ghost before = dst@;
    let n: usize = dst.len();
    let mut i: usize = from;
    while i < n
        invariant
            from <= i <= n,
            n == dst@.len(),
            n == before.len(),
            forall|k: int| 0 <= k < from ==> dst@[k] == before[k],
            forall|k: int| from <= k < i ==> dst@[k] == 0,
        decreases n - i,
    {
        dst[i] = 0;
        i = i + 1;
    }
    assert(dst@ =~= before.take(from as int) + zeros((n - from) as nat));
}

} // verus!
