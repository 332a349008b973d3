//! The big-endian interpretation of byte sequences, as mathematics.
//!
//! Every multi-byte value on the wire is big-endian. These spec functions
//! say what integer a run of bytes denotes and which bytes an integer is
//! written as; the lemmas show the two directions invert each other.

use vstd::prelude::*;

verus! {

/// The unsigned value of two big-endian bytes.
pub open spec fn be_u16_val(s: Seq<u8>) -> int
    recommends
        s.len() >= 2,
{
    s[0] * 0x100 + s[1]
}

/// The unsigned value of four big-endian bytes.
pub open spec fn be_u32_val(s: Seq<u8>) -> int
    recommends
        s.len() >= 4,
{
    s[0] * 0x100_0000 + s[1] * 0x1_0000 + s[2] * 0x100 + s[3]
}

/// The unsigned value of eight big-endian bytes.
pub open spec fn be_u64_val(s: Seq<u8>) -> int
    recommends
        s.len() >= 8,
{
    s[0] * 0x100_0000_0000_0000
        + s[1] * 0x1_0000_0000_0000
        + s[2] * 0x100_0000_0000
        + s[3] * 0x1_0000_0000
        + s[4] * 0x100_0000
        + s[5] * 0x1_0000
        + s[6] * 0x100
        + s[7]
}

/// The two's-complement value of one byte.
pub open spec fn be_i8_val(s: Seq<u8>) -> int
    recommends
        s.len() >= 1,
{
    if s[0] >= 0x80 {
        s[0] - 0x100
    } else {
        s[0] as int
    }
}

/// The two's-complement value of two big-endian bytes.
pub open spec fn be_i16_val(s: Seq<u8>) -> int
    recommends
        s.len() >= 2,
{
    if be_u16_val(s) >= 0x8000 {
        be_u16_val(s) - 0x1_0000
    } else {
        be_u16_val(s)
    }
}

/// The two's-complement value of four big-endian bytes.
pub open spec fn be_i32_val(s: Seq<u8>) -> int
    recommends
        s.len() >= 4,
{
    if be_u32_val(s) >= 0x8000_0000 {
        be_u32_val(s) - 0x1_0000_0000
    } else {
        be_u32_val(s)
    }
}

/// The two's-complement value of eight big-endian bytes.
pub open spec fn be_i64_val(s: Seq<u8>) -> int
    recommends
        s.len() >= 8,
{
    if be_u64_val(s) >= 0x8000_0000_0000_0000 {
        be_u64_val(s) - 0x1_0000_0000_0000_0000
    } else {
        be_u64_val(s)
    }
}

/// The two big-endian bytes of a 16-bit unsigned integer.
pub open spec fn u16_be_bytes(v: u16) -> Seq<u8> {
    seq![(v / 0x100) as u8, (v % 0x100) as u8]
}

/// The four big-endian bytes of a 32-bit unsigned integer.
pub open spec fn u32_be_bytes(v: u32) -> Seq<u8> {
    seq![
        (v / 0x100_0000) as u8,
        ((v / 0x1_0000) % 0x100) as u8,
        ((v / 0x100) % 0x100) as u8,
        (v % 0x100) as u8,
    ]
}

/// The eight big-endian bytes of a 64-bit unsigned integer.
pub open spec fn u64_be_bytes(v: u64) -> Seq<u8> {
    seq![
        (v / 0x100_0000_0000_0000) as u8,
        ((v / 0x1_0000_0000_0000) % 0x100) as u8,
        ((v / 0x100_0000_0000) % 0x100) as u8,
        ((v / 0x1_0000_0000) % 0x100) as u8,
        ((v / 0x100_0000) % 0x100) as u8,
        ((v / 0x1_0000) % 0x100) as u8,
        ((v / 0x100) % 0x100) as u8,
        (v % 0x100) as u8,
    ]
}

/// The big-endian bytes of a signed integer are those of its two's-complement
/// unsigned counterpart.
pub open spec fn i8_be_bytes(v: i8) -> Seq<u8> {
    seq![v as u8]
}

/// See `i8_be_bytes`.
pub open spec fn i16_be_bytes(v: i16) -> Seq<u8> {
    u16_be_bytes(v as u16)
}

/// See `i8_be_bytes`.
pub open spec fn i32_be_bytes(v: i32) -> Seq<u8> {
    u32_be_bytes(v as u32)
}

/// See `i8_be_bytes`.
pub open spec fn i64_be_bytes(v: i64) -> Seq<u8> {
    u64_be_bytes(v as u64)
}

/// `n` zero bytes, as follow a message body out to the alignment.
pub open spec fn zero_bytes(n: int) -> Seq<u8> {
    Seq::new(n as nat, |i: int| 0u8)
}

/// Reading back the bytes of a 16-bit unsigned integer yields the integer.
pub proof fn lemma_u16_roundtrip(v: u16)
    ensures
        be_u16_val(u16_be_bytes(v)) == v,
{
    assert(v / 0x100 < 0x100) by (bit_vector);
    assert((v / 0x100) * 0x100 + v % 0x100 == v) by (bit_vector);
}

/// Reading back the bytes of a 32-bit unsigned integer yields the integer.
pub proof fn lemma_u32_roundtrip(v: u32)
    ensures
        be_u32_val(u32_be_bytes(v)) == v,
{
    assert(v / 0x100_0000 < 0x100) by (bit_vector);
    assert((v / 0x100_0000) * 0x100_0000 + ((v / 0x1_0000) % 0x100) * 0x1_0000 + ((v / 0x100)
        % 0x100) * 0x100 + v % 0x100 == v) by (bit_vector);
}

/// Reading back the bytes of a 64-bit unsigned integer yields the integer.
pub proof fn lemma_u64_roundtrip(v: u64)
    ensures
        be_u64_val(u64_be_bytes(v)) == v,
{
    assert(v / 0x100_0000_0000_0000 < 0x100) by (bit_vector);
    assert((v / 0x100_0000_0000_0000) * 0x100_0000_0000_0000 + ((v / 0x1_0000_0000_0000) % 0x100)
        * 0x1_0000_0000_0000 + ((v / 0x100_0000_0000) % 0x100) * 0x100_0000_0000 + ((v
        / 0x1_0000_0000) % 0x100) * 0x1_0000_0000 + ((v / 0x100_0000) % 0x100) * 0x100_0000 + ((v
        / 0x1_0000) % 0x100) * 0x1_0000 + ((v / 0x100) % 0x100) * 0x100 + v % 0x100 == v)
        by (bit_vector);
}

/// Reading back the byte of an 8-bit signed integer yields the integer.
pub proof fn lemma_i8_roundtrip(v: i8)
    ensures
        be_i8_val(i8_be_bytes(v)) == v,
{
    assert(v >= 0 ==> v as u8 == v) by (bit_vector);
    assert(v < 0 ==> v as u8 == v + 0x100) by (bit_vector);
}

/// Reading back the bytes of a 16-bit signed integer yields the integer.
pub proof fn lemma_i16_roundtrip(v: i16)
    ensures
        be_i16_val(i16_be_bytes(v)) == v,
{
    lemma_u16_roundtrip(v as u16);
    assert(v >= 0 ==> v as u16 == v) by (bit_vector);
    assert(v < 0 ==> v as u16 == v + 0x1_0000) by (bit_vector);
}

/// Reading back the bytes of a 32-bit signed integer yields the integer.
pub proof fn lemma_i32_roundtrip(v: i32)
    ensures
        be_i32_val(i32_be_bytes(v)) == v,
{
    lemma_u32_roundtrip(v as u32);
    assert(v >= 0 ==> v as u32 == v) by (bit_vector);
    assert(v < 0 ==> v as u32 == v + 0x1_0000_0000) by (bit_vector);
}

/// Reading back the bytes of a 64-bit signed integer yields the integer.
pub proof fn lemma_i64_roundtrip(v: i64)
    ensures
        be_i64_val(i64_be_bytes(v)) == v,
{
    lemma_u64_roundtrip(v as u64);
    assert(v >= 0 ==> v as u64 == v) by (bit_vector);
    assert(v < 0 ==> v as u64 == v + 0x1_0000_0000_0000_0000) by (bit_vector);
}

} // verus!
