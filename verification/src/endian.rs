//! Fixed-width integers as bytes on the wire, in both byte orders.
//!
//! Everything here is arithmetic on byte values: a sequence of bytes stands
//! for the number that its digits in base 256 spell, most significant digit
//! first (big-endian) or last (little-endian).

use vstd::prelude::*;

verus! {

/// The unsigned number that the first two bytes of `b` spell, big-endian.
pub open spec fn u16_from_be(b: Seq<u8>) -> int
    recommends
        b.len() >= 2,
{
    b[0] * 0x100 + b[1]
}

/// The unsigned number that the first two bytes of `b` spell, little-endian.
pub open spec fn u16_from_le(b: Seq<u8>) -> int
    recommends
        b.len() >= 2,
{
    b[0] + b[1] * 0x100
}

/// The unsigned number that the first four bytes of `b` spell, little-endian.
pub open spec fn u32_from_le(b: Seq<u8>) -> int
    recommends
        b.len() >= 4,
{
    b[0] + b[1] * 0x100 + b[2] * 0x1_0000 + b[3] * 0x100_0000
}

/// The signed number whose two's complement in 32 bits is `n`.
pub open spec fn signed32(n: int) -> int
    recommends
        0 <= n < 0x1_0000_0000,
{
    if n < 0x8000_0000 {
        n
    } else {
        n - 0x1_0000_0000
    }
}

/// The two's complement of `n` in 32 bits, as an unsigned number.
pub open spec fn unsigned32(n: int) -> int
    recommends
        -0x8000_0000 <= n < 0x8000_0000,
{
    if n >= 0 {
        n
    } else {
        n + 0x1_0000_0000
    }
}

/// The signed number that the first four bytes of `b` spell, little-endian.
pub open spec fn i32_from_le(b: Seq<u8>) -> int
    recommends
        b.len() >= 4,
{
    signed32(u32_from_le(b))
}

/// The two bytes of `n`, most significant first.
pub open spec fn u16_to_be(n: u16) -> Seq<u8> {
    seq![(n / 0x100) as u8, (n % 0x100) as u8]
}

/// The two bytes of `n`, least significant first.
pub open spec fn u16_to_le(n: u16) -> Seq<u8> {
    seq![(n % 0x100) as u8, (n / 0x100) as u8]
}

/// The four bytes of `n`, least significant first.
pub open spec fn u32_to_le(n: u32) -> Seq<u8> {
    seq![
        (n % 0x100) as u8,
        (n / 0x100 % 0x100) as u8,
        (n / 0x1_0000 % 0x100) as u8,
        (n / 0x100_0000) as u8,
    ]
}

/// The four bytes of the two's complement of `n`, least significant first.
pub open spec fn i32_to_le(n: i32) -> Seq<u8> {
    u32_to_le(unsigned32(n as int) as u32)
}

/// Reading back what was written gives the number, whatever follows it.
pub proof fn lemma_u16_be_round_trip(n: u16, rest: Seq<u8>)
    ensures
        u16_to_be(n).len() == 2,
        u16_from_be(u16_to_be(n) + rest) == n,
        (u16_to_be(n) + rest).skip(2) == rest,
{
    let w = u16_to_be(n) + rest;
    assert(w[0] == u16_to_be(n)[0]);
    assert(w[1] == u16_to_be(n)[1]);
    assert(w.skip(2) =~= rest);
}

/// Reading back what was written gives the number, whatever follows it.
pub proof fn lemma_u16_le_round_trip(n: u16, rest: Seq<u8>)
    ensures
        u16_to_le(n).len() == 2,
        u16_from_le(u16_to_le(n) + rest) == n,
        (u16_to_le(n) + rest).skip(2) == rest,
{
    let w = u16_to_le(n) + rest;
    assert(w[0] == u16_to_le(n)[0]);
    assert(w[1] == u16_to_le(n)[1]);
    assert(w.skip(2) =~= rest);
}

/// Reading back what was written gives the number, whatever follows it.
pub proof fn lemma_u32_le_round_trip(n: u32, rest: Seq<u8>)
    ensures
        u32_to_le(n).len() == 4,
        u32_from_le(u32_to_le(n) + rest) == n,
        (u32_to_le(n) + rest).skip(4) == rest,
{
    let w = u32_to_le(n) + rest;
    assert(w[0] == u32_to_le(n)[0]);
    assert(w[1] == u32_to_le(n)[1]);
    assert(w[2] == u32_to_le(n)[2]);
    assert(w[3] == u32_to_le(n)[3]);
    assert(w.skip(4) =~= rest);
}

/// Reading back what was written gives the number, whatever follows it.
pub proof fn lemma_i32_le_round_trip(n: i32, rest: Seq<u8>)
    ensures
        i32_to_le(n).len() == 4,
        i32_from_le(i32_to_le(n) + rest) == n,
        (i32_to_le(n) + rest).skip(4) == rest,
{
    let u = unsigned32(n as int) as u32;
    assert(u == unsigned32(n as int));
    lemma_u32_le_round_trip(u, rest);
}

/// Writing what was read gives the bytes that were read: no two byte patterns
/// spell the same number.
pub proof fn lemma_u16_be_unique(b: Seq<u8>)
    requires
        b.len() >= 2,
    ensures
        0 <= u16_from_be(b) <= u16::MAX,
        u16_to_be(u16_from_be(b) as u16) == b.take(2),
{
    assert(u16_to_be(u16_from_be(b) as u16) =~= b.take(2));
}

/// Writing what was read gives the bytes that were read: no two byte patterns
/// spell the same number.
pub proof fn lemma_u16_le_unique(b: Seq<u8>)
    requires
        b.len() >= 2,
    ensures
        0 <= u16_from_le(b) <= u16::MAX,
        u16_to_le(u16_from_le(b) as u16) == b.take(2),
{
    assert(u16_to_le(u16_from_le(b) as u16) =~= b.take(2));
}

/// Writing what was read gives the bytes that were read: no two byte patterns
/// spell the same number.
pub proof fn lemma_u32_le_unique(b: Seq<u8>)
    requires
        b.len() >= 4,
    ensures
        0 <= u32_from_le(b) <= u32::MAX,
        u32_to_le(u32_from_le(b) as u32) == b.take(4),
{
    let n = u32_from_le(b);
    let high = b[1] + b[2] * 0x100 + b[3] * 0x1_0000;
    let higher = b[2] + b[3] * 0x100;
    assert(n == b[0] + high * 0x100);
    assert(n / 0x100 == high && n % 0x100 == b[0]);
    assert(high == b[1] + higher * 0x100);
    assert(high / 0x100 == higher && high % 0x100 == b[1]);
    assert(n / 0x1_0000 == higher);
    assert(higher / 0x100 == b[3] && higher % 0x100 == b[2]);
    assert(n / 0x100_0000 == b[3]);
    assert(u32_to_le(n as u32) =~= b.take(4));
}

/// Writing what was read gives the bytes that were read: no two byte patterns
/// spell the same number.
pub proof fn lemma_i32_le_unique(b: Seq<u8>)
    requires
        b.len() >= 4,
    ensures
        i32::MIN <= i32_from_le(b) <= i32::MAX,
        i32_to_le(i32_from_le(b) as i32) == b.take(4),
{
    lemma_u32_le_unique(b);
    let u = u32_from_le(b);
    assert(unsigned32(signed32(u)) == u);
}

} // verus!
