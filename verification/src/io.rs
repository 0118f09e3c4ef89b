//! Big-endian integers in byte buffers.

use byteorder::{BigEndian, ByteOrder};
use vstd::prelude::*;

verus! {

/// The unsigned integer that the first four bytes of `b` spell, most
/// significant byte first.
pub open spec fn be_u32(b: Seq<u8>) -> u32
    recommends
        b.len() >= 4,
{
    (b[0] as int * 0x100_0000 + b[1] as int * 0x1_0000 + b[2] as int * 0x100 + b[3] as int) as u32
}

/// The signed integer that the first four bytes of `b` spell in two's
/// complement, most significant byte first.
pub open spec fn be_i32(b: Seq<u8>) -> i32
    recommends
        b.len() >= 4,
{
    let u = be_u32(b) as int;
    if u < 0x8000_0000 {
        u as i32
    } else {
        (u - 0x1_0000_0000) as i32
    }
}

/// The four bytes that spell `x`, most significant byte first.
pub open spec fn u32_be(x: u32) -> Seq<u8> {
    seq![
        (x / 0x100_0000) as u8,
        (x / 0x1_0000 % 0x100) as u8,
        (x / 0x100 % 0x100) as u8,
        (x % 0x100) as u8,
    ]
}

/// The bit pattern of `x` in two's complement, as an unsigned integer.
pub open spec fn i32_bits(x: i32) -> u32 {
    if x >= 0 {
        x as u32
    } else {
        (x + 0x1_0000_0000) as u32
    }
}

/// The four bytes that spell `x` in two's complement, most significant byte
/// first.
pub open spec fn i32_be(x: i32) -> Seq<u8> {
    u32_be(i32_bits(x))
}

/// The unsigned integer that the first eight bytes of `b` spell, most
/// significant byte first.
pub open spec fn be_u64(b: Seq<u8>) -> u64
    recommends
        b.len() >= 8,
{
    (be_u32(b) as int * 0x1_0000_0000 + be_u32(b.skip(4)) as int) as u64
}

/// The signed integer that the first eight bytes of `b` spell in two's
/// complement, most significant byte first.
pub open spec fn be_i64(b: Seq<u8>) -> i64
    recommends
        b.len() >= 8,
{
    let u = be_u64(b) as int;
    if u < 0x8000_0000_0000_0000 {
        u as i64
    } else {
        (u - 0x1_0000_0000_0000_0000) as i64
    }
}

/// The eight bytes that spell `x`, most significant byte first.
pub open spec fn u64_be(x: u64) -> Seq<u8> {
    u32_be((x / 0x1_0000_0000) as u32) + u32_be((x % 0x1_0000_0000) as u32)
}

/// The bit pattern of `x` in two's complement, as an unsigned integer.
pub open spec fn i64_bits(x: i64) -> u64 {
    if x >= 0 {
        x as u64
    } else {
        (x + 0x1_0000_0000_0000_0000) as u64
    }
}

/// The eight bytes that spell `x` in two's complement, most significant byte
/// first.
pub open spec fn i64_be(x: i64) -> Seq<u8> {
    u64_be(i64_bits(x))
}

/// Reading back what `u32_be` wrote gives the same integer, whatever follows
/// the four bytes.
pub proof fn lemma_be_u32_of_u32_be(x: u32, tail: Seq<u8>)
    ensures
        u32_be(x).len() == 4,
        be_u32(u32_be(x) + tail) == x,
{
    let b = u32_be(x) + tail;
    assert(b[0] == (x / 0x100_0000) as u8);
    assert(b[1] == (x / 0x1_0000 % 0x100) as u8);
    assert(b[2] == (x / 0x100 % 0x100) as u8);
    assert(b[3] == (x % 0x100) as u8);
}

/// Reading back what `i32_be` wrote gives the same integer, whatever follows
/// the four bytes.
pub proof fn lemma_be_i32_of_i32_be(x: i32, tail: Seq<u8>)
    ensures
        i32_be(x).len() == 4,
        be_i32(i32_be(x) + tail) == x,
{
    lemma_be_u32_of_u32_be(i32_bits(x), tail);
}

/// Reading back what `i64_be` wrote gives the same integer, whatever follows
/// the eight bytes.
pub proof fn lemma_be_i64_of_i64_be(x: i64, tail: Seq<u8>)
    ensures
        i64_be(x).len() == 8,
        be_i64(i64_be(x) + tail) == x,
{
    let bits = i64_bits(x);
    let high = (bits / 0x1_0000_0000) as u32;
    let low = (bits % 0x1_0000_0000) as u32;
    let b = i64_be(x) + tail;
    lemma_be_u32_of_u32_be(high, u32_be(low) + tail);
    lemma_be_u32_of_u32_be(low, tail);
    assert(b =~= u32_be(high) + (u32_be(low) + tail));
    assert(b.skip(4) =~= u32_be(low) + tail);
}

/// `byteorder::BigEndian::read_u32`: the first four bytes of `buf` read as a
/// big-endian unsigned integer. It panics on a shorter buffer, which `requires`
/// leaves out.
#[verifier::external_body]
pub(crate) fn read_u32_be(buf: &[u8]) -> (r: u32)
    requires
        buf@.len() >= 4,
    ensures
        r == be_u32(buf@),
{
    BigEndian::read_u32(buf)
}

/// `byteorder::BigEndian::read_i32`: the first four bytes of `buf` read as a
/// big-endian two's complement integer. It panics on a shorter buffer, which
/// `requires` leaves out.
#[verifier::external_body]
pub(crate) fn read_i32_be(buf: &[u8]) -> (r: i32)
    requires
        buf@.len() >= 4,
    ensures
        r == be_i32(buf@),
{
    BigEndian::read_i32(buf)
}

/// `byteorder::BigEndian::read_i64`: the first eight bytes of `buf` read as a
/// big-endian two's complement integer. It panics on a shorter buffer, which
/// `requires` leaves out.
#[verifier::external_body]
pub(crate) fn read_i64_be(buf: &[u8]) -> (r: i64)
    requires
        buf@.len() >= 8,
    ensures
        r == be_i64(buf@),
{
    BigEndian::read_i64(buf)
}

/// Appends the four big-endian bytes of `x` to `buf`.
pub fn put_u32_be(buf: &mut Vec<u8>, x: u32)
    ensures
        final(buf)@ == old(buf)@ + u32_be(x),
{
    buf.push((x / 0x100_0000) as u8);
    buf.push((x / 0x1_0000 % 0x100) as u8);
    buf.push((x / 0x100 % 0x100) as u8);
    buf.push((x % 0x100) as u8);
    assert(buf@ =~= old(buf)@ + u32_be(x));
}

/// Appends the four big-endian bytes of `x` in two's complement to `buf`.
pub fn put_i32_be(buf: &mut Vec<u8>, x: i32)
    ensures
        final(buf)@ == old(buf)@ + i32_be(x),
{
    let bits: u32 = if x >= 0 {
        x as u32
    } else {
        (x as i64 + 0x1_0000_0000) as u32
    };
    put_u32_be(buf, bits);
}

/// Appends the eight big-endian bytes of `x` in two's complement to `buf`.
pub fn put_i64_be(buf: &mut Vec<u8>, x: i64)
    ensures
        final(buf)@ == old(buf)@ + i64_be(x),
{
    let bits: u64 = if x >= 0 {
        x as u64
    } else {
        (x as i128 + 0x1_0000_0000_0000_0000) as u64
    };
    put_u32_be(buf, (bits / 0x1_0000_0000) as u32);
    put_u32_be(buf, (bits % 0x1_0000_0000) as u32);
    assert(buf@ =~= old(buf)@ + i64_be(x));
}

/// Overwrites the four bytes of `buf` that start at `at` with the big-endian
/// bytes of `x`.
pub fn set_u32_be(buf: &mut Vec<u8>, at: usize, x: u32)
    requires
        at + 4 <= old(buf)@.len(),
    ensures
        final(buf)@ == old(buf)@.subrange(0, at as int) + u32_be(x) + old(buf)@.subrange(
            at + 4,
            old(buf)@.len() as int,
        ),
{
    let len: usize = buf.len();
    assert(at + 4 <= len);
    buf[at] = (x / 0x100_0000) as u8;
    buf[at + 1] = (x / 0x1_0000 % 0x100) as u8;
    buf[at + 2] = (x / 0x100 % 0x100) as u8;
    buf[at + 3] = (x % 0x100) as u8;
    assert(buf@ =~= old(buf)@.subrange(0, at as int) + u32_be(x) + old(buf)@.subrange(
        at + 4,
        old(buf)@.len() as int,
    ));
}

} // verus!
