//! Byte-level codec for the backing buffer: fixed-size 1/2/4-byte values are
//! placed at explicit byte positions, multi-byte values big-endian. Floats
//! cross this boundary as IEEE-754 bit patterns (`u32`), so encoding and
//! decoding are bit-exact for every representable value.

use vstd::prelude::*;
use vstd::pervasive::VecAdditionalExecFns;

verus! {

/// The two big-endian bytes of a 16-bit value: most significant first.
pub open spec fn u16_be_byte(v: u16, i: int) -> u8 {
    if i == 0 {
        (v >> 8) as u8
    } else {
        v as u8
    }
}

/// The four big-endian bytes of a 32-bit value: most significant first.
pub open spec fn u32_be_byte(v: u32, i: int) -> u8 {
    if i == 0 {
        (v >> 24) as u8
    } else if i == 1 {
        (v >> 16) as u8
    } else if i == 2 {
        (v >> 8) as u8
    } else {
        v as u8
    }
}

/// 16-bit value read back from two big-endian bytes.
pub open spec fn u16_from_be(b0: u8, b1: u8) -> u16 {
    ((b0 as u16) << 8) | (b1 as u16)
}

/// 32-bit value read back from four big-endian bytes.
pub open spec fn u32_from_be(b0: u8, b1: u8, b2: u8, b3: u8) -> u32 {
    ((b0 as u32) << 24) | ((b1 as u32) << 16) | ((b2 as u32) << 8) | (b3 as u32)
}

/// Decoding the big-endian bytes of a 16-bit value yields that value.
pub proof fn lemma_u16_round_trip(v: u16)
    ensures
        u16_from_be(u16_be_byte(v, 0), u16_be_byte(v, 1)) == v,
{
    assert((((v >> 8) as u8 as u16) << 8) | (v as u8 as u16) == v) by (bit_vector);
}

/// Decoding the big-endian bytes of a 32-bit value yields that value.
pub proof fn lemma_u32_round_trip(v: u32)
    ensures
        u32_from_be(u32_be_byte(v, 0), u32_be_byte(v, 1), u32_be_byte(v, 2), u32_be_byte(v, 3))
            == v,
{
    assert((((v >> 24) as u8 as u32) << 24) | (((v >> 16) as u8 as u32) << 16) | (((v
        >> 8) as u8 as u32) << 8) | (v as u8 as u32) == v) by (bit_vector);
}

/// Grows `buf` with zero bytes until it is at least `len` long; a buffer
/// position must exist before a value can be placed there.
pub fn grow_to(buf: &mut Vec<u8>, len: usize)
    ensures
        final(buf).len() == if old(buf).len() >= len {
            old(buf).len() as int
        } else {
            len as int
        },
        final(buf)@.subrange(0, old(buf).len() as int) == old(buf)@,
        forall|i: int| old(buf).len() <= i < final(buf).len() ==> final(buf)@[i] == 0u8,
{
    while buf.len() < len
        invariant
            buf@.subrange(0, old(buf).len() as int) == old(buf)@,
            buf.len() >= old(buf).len(),
            buf.len() == old(buf).len() || buf.len() <= len,
            forall|i: int| old(buf).len() <= i < buf.len() ==> buf@[i] == 0u8,
        decreases len - buf.len(),
    {
        buf.push(0u8);
        assert(buf@.subrange(0, old(buf).len() as int) == old(buf)@);
    }
}

/// Places one byte at `pos`.
pub fn put_u8_at(buf: &mut Vec<u8>, pos: usize, v: u8)
    requires
        pos < old(buf).len(),
    ensures
        final(buf)@ == old(buf)@.update(pos as int, v),
{
    buf.set(pos, v);
}

/// Places a 16-bit value at `pos`, big-endian.
pub fn put_u16_be_at(buf: &mut Vec<u8>, pos: usize, v: u16)
    requires
        pos + 2 <= old(buf).len(),
    ensures
        final(buf).len() == old(buf).len(),
        forall|i: int|
            0 <= i < old(buf).len() && !(pos <= i < pos + 2) ==> final(buf)@[i] == old(buf)@[i],
        forall|i: int| 0 <= i < 2 ==> final(buf)@[pos + i] == u16_be_byte(v, i),
{
    buf.set(pos, (v >> 8) as u8);
    buf.set(pos + 1, v as u8);
}

/// Places a 32-bit value at `pos`, big-endian.
pub fn put_u32_be_at(buf: &mut Vec<u8>, pos: usize, v: u32)
    requires
        pos + 4 <= old(buf).len(),
    ensures
        final(buf).len() == old(buf).len(),
        forall|i: int|
            0 <= i < old(buf).len() && !(pos <= i < pos + 4) ==> final(buf)@[i] == old(buf)@[i],
        forall|i: int| 0 <= i < 4 ==> final(buf)@[pos + i] == u32_be_byte(v, i),
{
    buf.set(pos, (v >> 24) as u8);
    buf.set(pos + 1, (v >> 16) as u8);
    buf.set(pos + 2, (v >> 8) as u8);
    buf.set(pos + 3, v as u8);
}

/// Reads back the byte at `pos`.
pub fn get_u8_at(buf: &Vec<u8>, pos: usize) -> (r: u8)
    requires
        pos < buf.len(),
    ensures
        r == buf@[pos as int],
{
    buf[pos]
}

/// Reads back a big-endian 16-bit value from `pos`.
pub fn get_u16_be_at(buf: &Vec<u8>, pos: usize) -> (r: u16)
    requires
        pos + 2 <= buf.len(),
    ensures
        r == u16_from_be(buf@[pos as int], buf@[pos + 1]),
{
    ((buf[pos] as u16) << 8) | (buf[pos + 1] as u16)
}

/// Reads back a big-endian 32-bit value from `pos`.
pub fn get_u32_be_at(buf: &Vec<u8>, pos: usize) -> (r: u32)
    requires
        pos + 4 <= buf.len(),
    ensures
        r == u32_from_be(buf@[pos as int], buf@[pos + 1], buf@[pos + 2], buf@[pos + 3]),
{
    ((buf[pos] as u32) << 24) | ((buf[pos + 1] as u32) << 16) | ((buf[pos + 2] as u32) << 8) | (
    buf[pos + 3] as u32)
}

} // verus!
