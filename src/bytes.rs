//! Little-endian access to byte buffers.
use vstd::prelude::*;

verus! {

/// The halfword stored little-endian at `i`.
pub open spec fn le16(s: Seq<u8>, i: int) -> u16 {
    ((s[i] as u16) | ((s[i + 1] as u16) << 8u16)) as u16
}

/// The word stored little-endian at `i`.
pub open spec fn le32(s: Seq<u8>, i: int) -> u32 {
    ((s[i] as u32) | ((s[i + 1] as u32) << 8u32) | ((s[i + 2] as u32) << 16u32) | ((s[i
        + 3] as u32) << 24u32)) as u32
}

/// `s` with the halfword `v` stored little-endian at `i`.
pub open spec fn store16(s: Seq<u8>, i: int, v: u16) -> Seq<u8> {
    s.update(i, v as u8).update(i + 1, (v >> 8u16) as u8)
}

/// `s` with the word `v` stored little-endian at `i`.
pub open spec fn store32(s: Seq<u8>, i: int, v: u32) -> Seq<u8> {
    s.update(i, v as u8).update(i + 1, (v >> 8u32) as u8).update(i + 2, (v >> 16u32) as u8).update(
        i + 3,
        (v >> 24u32) as u8,
    )
}

pub proof fn lemma_u16_bytes(v: u16)
    ensures
        ((v as u8) as u16) | ((((v >> 8u16) as u8) as u16) << 8u16) == v,
{
    assert(((v as u8) as u16) | ((((v >> 8u16) as u8) as u16) << 8u16) == v) by (bit_vector);
}

pub proof fn lemma_u32_bytes(v: u32)
    ensures
        ((v as u8) as u32) | ((((v >> 8u32) as u8) as u32) << 8u32) | ((((v >> 16u32) as u8)
            as u32) << 16u32) | ((((v >> 24u32) as u8) as u32) << 24u32) == v,
{
    assert(((v as u8) as u32) | ((((v >> 8u32) as u8) as u32) << 8u32) | ((((v >> 16u32) as u8)
        as u32) << 16u32) | ((((v >> 24u32) as u8) as u32) << 24u32) == v) by (bit_vector);
}

/// Reading a halfword back after storing it gives the stored value.
pub proof fn lemma_load_store16(s: Seq<u8>, i: int, v: u16)
    requires
        0 <= i,
        i + 2 <= s.len(),
    ensures
        le16(store16(s, i, v), i) == v,
        store16(s, i, v).len() == s.len(),
{
    lemma_u16_bytes(v);
}

/// Reading a word back after storing it gives the stored value.
pub proof fn lemma_load_store32(s: Seq<u8>, i: int, v: u32)
    requires
        0 <= i,
        i + 4 <= s.len(),
    ensures
        le32(store32(s, i, v), i) == v,
        store32(s, i, v).len() == s.len(),
{
    lemma_u32_bytes(v);
}

pub fn load8(b: &Vec<u8>, i: usize) -> (r: u8)
    requires
        i < b@.len(),
    ensures
        r == b@[i as int],
{
    b[i]
}

pub fn load16(b: &Vec<u8>, i: usize) -> (r: u16)
    requires
        i + 2 <= b@.len(),
    ensures
        r == le16(b@, i as int),
{
    let _len = b.len();
    (b[i] as u16) | ((b[i + 1] as u16) << 8u16)
}

pub fn load32(b: &Vec<u8>, i: usize) -> (r: u32)
    requires
        i + 4 <= b@.len(),
    ensures
        r == le32(b@, i as int),
{
    let _len = b.len();
    (b[i] as u32) | ((b[i + 1] as u32) << 8u32) | ((b[i + 2] as u32) << 16u32) | ((b[i + 3] as u32)
        << 24u32)
}

pub fn put16(b: &mut Vec<u8>, i: usize, v: u16)
    requires
        i + 2 <= old(b)@.len(),
    ensures
        final(b)@ == store16(old(b)@, i as int, v),
{
    let _len = b.len();
    b.set(i, v as u8);
    b.set(i + 1, (v >> 8u16) as u8);
}

pub fn put32(b: &mut Vec<u8>, i: usize, v: u32)
    requires
        i + 4 <= old(b)@.len(),
    ensures
        final(b)@ == store32(old(b)@, i as int, v),
{
    let _len = b.len();
    b.set(i, v as u8);
    b.set(i + 1, (v >> 8u32) as u8);
    b.set(i + 2, (v >> 16u32) as u8);
    b.set(i + 3, (v >> 24u32) as u8);
}

} // verus!
