//! Integers as the little-endian bytes that the kernel reads and writes.

use vstd::prelude::*;

verus! {

/// The four bytes of `x`, least significant first.
pub open spec fn u32_le(x: u32) -> Seq<u8> {
    seq![
        (x % 0x100) as u8,
        (x / 0x100 % 0x100) as u8,
        (x / 0x1_0000 % 0x100) as u8,
        (x / 0x100_0000 % 0x100) as u8,
    ]
}

/// The number whose four bytes, least significant first, are `bytes`.
pub open spec fn le_u32(bytes: Seq<u8>) -> u32
    recommends
        bytes.len() == 4,
{
    (bytes[0] + 0x100 * bytes[1] + 0x1_0000 * bytes[2] + 0x100_0000 * bytes[3]) as u32
}

/// The eight bytes of `x`, least significant first.
pub open spec fn u64_le(x: u64) -> Seq<u8> {
    u32_le((x % 0x1_0000_0000) as u32) + u32_le((x / 0x1_0000_0000) as u32)
}

/// The number whose eight bytes, least significant first, are `bytes`.
pub open spec fn le_u64(bytes: Seq<u8>) -> u64
    recommends
        bytes.len() == 8,
{
    (le_u32(bytes.subrange(0, 4)) + 0x1_0000_0000 * le_u32(bytes.subrange(4, 8))) as u64
}

/// The unsigned number with the same 32 bits as `x` in two's complement.
pub open spec fn i32_bits(x: i32) -> u32 {
    if x < 0 {
        (x + 0x1_0000_0000) as u32
    } else {
        x as u32
    }
}

/// The signed number with the same 32 bits as `bits` in two's complement.
pub open spec fn bits_i32(bits: u32) -> i32 {
    if bits >= 0x8000_0000 {
        (bits - 0x1_0000_0000) as i32
    } else {
        bits as i32
    }
}

/// The four bytes of `x` in two's complement, least significant first.
pub open spec fn i32_le(x: i32) -> Seq<u8> {
    u32_le(i32_bits(x))
}

/// The signed number whose four bytes, least significant first, are `bytes`.
pub open spec fn le_i32(bytes: Seq<u8>) -> i32
    recommends
        bytes.len() == 4,
{
    bits_i32(le_u32(bytes))
}

/// `into` with the bytes from `at` on replaced by `part`.
pub open spec fn splice(into: Seq<u8>, at: int, part: Seq<u8>) -> Seq<u8>
    recommends
        0 <= at,
        at + part.len() <= into.len(),
{
    Seq::new(
        into.len(),
        |i: int|
            if at <= i < at + part.len() {
                part[i - at]
            } else {
                into[i]
            },
    )
}

/// Reading back the bytes of a 32-bit number gives the number.
pub proof fn lemma_u32_round_trip(x: u32)
    ensures
        u32_le(x).len() == 4,
        le_u32(u32_le(x)) == x,
{
}

/// Reading back the bytes of a 64-bit number gives the number.
pub proof fn lemma_u64_round_trip(x: u64)
    ensures
        u64_le(x).len() == 8,
        le_u64(u64_le(x)) == x,
{
    let low: u32 = (x % 0x1_0000_0000) as u32;
    let high: u32 = (x / 0x1_0000_0000) as u32;
    lemma_u32_round_trip(low);
    lemma_u32_round_trip(high);
}

/// Reading back the bytes of a signed number gives the number.
pub proof fn lemma_i32_round_trip(x: i32)
    ensures
        i32_le(x).len() == 4,
        le_i32(i32_le(x)) == x,
{
    lemma_u32_round_trip(i32_bits(x));
}

/// Reads the 32-bit number that starts at `at`.
pub fn get_u32(buf: &[u8], at: usize) -> (x: u32)
    requires
        at + 4 <= buf.len(),
    ensures
        x == le_u32(buf@.subrange(at as int, at + 4)),
{
    let b0: u32 = buf[at] as u32;
    let b1: u32 = buf[at + 1] as u32;
    let b2: u32 = buf[at + 2] as u32;
    let b3: u32 = buf[at + 3] as u32;
    b0 + 0x100 * b1 + 0x1_0000 * b2 + 0x100_0000 * b3
}

/// Reads the signed 32-bit number that starts at `at`.
pub fn get_i32(buf: &[u8], at: usize) -> (x: i32)
    requires
        at + 4 <= buf.len(),
    ensures
        x == le_i32(buf@.subrange(at as int, at + 4)),
{
    let bits: u32 = get_u32(buf, at);
    if bits >= 0x8000_0000 {
        (bits as i64 - 0x1_0000_0000) as i32
    } else {
        bits as i32
    }
}

/// Reads the 64-bit number that starts at `at`.
pub fn get_u64(buf: &[u8], at: usize) -> (x: u64)
    requires
        at + 8 <= buf.len(),
    ensures
        x == le_u64(buf@.subrange(at as int, at + 8)),
{
    let low: u64 = get_u32(buf, at) as u64;
    let high: u64 = get_u32(buf, at + 4) as u64;
    low + 0x1_0000_0000 * high
}

/// Writes the four bytes of `x` from `at` on.
pub fn put_u32(buf: &mut [u8], at: usize, x: u32)
    requires
        at + 4 <= old(buf).len(),
    ensures
        final(buf)@ == splice(old(buf)@, at as int, u32_le(x)),
{
    buf[at] = (x % 0x100) as u8;
    buf[at + 1] = (x / 0x100 % 0x100) as u8;
    buf[at + 2] = (x / 0x1_0000 % 0x100) as u8;
    buf[at + 3] = (x / 0x100_0000 % 0x100) as u8;
}

/// Writes the four bytes of `x` in two's complement from `at` on.
pub fn put_i32(buf: &mut [u8], at: usize, x: i32)
    requires
        at + 4 <= old(buf).len(),
    ensures
        final(buf)@ == splice(old(buf)@, at as int, i32_le(x)),
{
    let bits: u32 = if x < 0 {
        (x as i64 + 0x1_0000_0000) as u32
    } else {
        x as u32
    };
    put_u32(buf, at, bits);
}

/// Writes the eight bytes of `x` from `at` on.
pub fn put_u64(buf: &mut [u8], at: usize, x: u64)
    requires
        at + 8 <= old(buf).len(),
    ensures
        final(buf)@ == splice(old(buf)@, at as int, u64_le(x)),
{
    put_u32(buf, at, (x % 0x1_0000_0000) as u32);
    put_u32(buf, at + 4, (x / 0x1_0000_0000) as u32);
}

} // verus!
