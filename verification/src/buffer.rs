//! Trusted boundary to the `bytes` crate.
//!
//! The codec works on `bytes::Bytes` (a cheaply sliceable, shared byte
//! buffer) and `bytes::BytesMut` (its growable counterpart). Verus sees both
//! types as opaque; `bytes_view` and `bytes_mut_view` name the byte sequence
//! each holds, and every method the codec calls goes through a wrapper here
//! whose contract states, over those views, what the crate's source shows.

use vstd::prelude::*;
use bytes::Buf;
use bytes::BufMut;
use bytes::Bytes;
use bytes::BytesMut;
use crate::endian::be_i16_val;
use crate::endian::be_i32_val;
use crate::endian::be_i64_val;
use crate::endian::be_i8_val;
use crate::endian::be_u16_val;
use crate::endian::be_u32_val;
use crate::endian::be_u64_val;
use crate::endian::i16_be_bytes;
use crate::endian::i32_be_bytes;
use crate::endian::i64_be_bytes;
use crate::endian::i8_be_bytes;
use crate::endian::u16_be_bytes;
use crate::endian::u32_be_bytes;
use crate::endian::u64_be_bytes;

verus! {

#[verifier::external_type_specification]
#[verifier::external_body]
pub struct ExBytes(Bytes);

#[verifier::external_type_specification]
#[verifier::external_body]
pub struct ExBytesMut(BytesMut);

/// The bytes a `bytes::Bytes` holds, in order.
pub uninterp spec fn bytes_view(b: Bytes) -> Seq<u8>;

/// The bytes a `bytes::BytesMut` holds, in order.
pub uninterp spec fn bytes_mut_view(b: BytesMut) -> Seq<u8>;

/// Relies on `Bytes::new`: an empty buffer.
#[verifier::external_body]
pub fn bytes_new() -> (r: Bytes)
    ensures
        bytes_view(r) == Seq::<u8>::empty(),
{
    Bytes::new()
}

/// Relies on `Bytes::len`: the number of bytes held.
#[verifier::external_body]
pub fn bytes_len(b: &Bytes) -> (r: usize)
    ensures
        r == bytes_view(*b).len(),
{
    b.len()
}

/// Relies on `Bytes::clone`: a second handle to the same bytes.
#[verifier::external_body]
pub fn bytes_clone(b: &Bytes) -> (r: Bytes)
    ensures
        bytes_view(r) == bytes_view(*b),
{
    b.clone()
}

/// Relies on the `Deref` of `Bytes` to a slice and `<[u8]>::to_vec`: copies
/// the contents out.
#[verifier::external_body]
pub fn bytes_to_vec(b: &Bytes) -> (r: Vec<u8>)
    ensures
        r@ == bytes_view(*b),
{
    b.to_vec()
}

/// Relies on `Bytes::split_to`: the first `at` bytes are returned and the
/// buffer keeps the rest.
#[verifier::external_body]
pub fn bytes_split_to(b: &mut Bytes, at: usize) -> (r: Bytes)
    requires
        at <= bytes_view(*old(b)).len(),
    ensures
        bytes_view(r) == bytes_view(*old(b)).take(at as int),
        bytes_view(*final(b)) == bytes_view(*old(b)).skip(at as int),
{
    b.split_to(at)
}

/// Relies on `Buf::get_u8` for `Bytes`: reads the first byte and advances
/// past it.
#[verifier::external_body]
pub fn bytes_get_u8(b: &mut Bytes) -> (r: u8)
    requires
        bytes_view(*old(b)).len() >= 1,
    ensures
        r == bytes_view(*old(b))[0],
        bytes_view(*final(b)) == bytes_view(*old(b)).skip(1),
{
    b.get_u8()
}

/// Relies on `Buf::get_u16` for `Bytes`: reads two big-endian bytes and
/// advances past them.
#[verifier::external_body]
pub fn bytes_get_u16(b: &mut Bytes) -> (r: u16)
    requires
        bytes_view(*old(b)).len() >= 2,
    ensures
        r == be_u16_val(bytes_view(*old(b)).take(2)),
        bytes_view(*final(b)) == bytes_view(*old(b)).skip(2),
{
    b.get_u16()
}

/// Relies on `Buf::get_u32` for `Bytes`: reads four big-endian bytes and
/// advances past them.
#[verifier::external_body]
pub fn bytes_get_u32(b: &mut Bytes) -> (r: u32)
    requires
        bytes_view(*old(b)).len() >= 4,
    ensures
        r == be_u32_val(bytes_view(*old(b)).take(4)),
        bytes_view(*final(b)) == bytes_view(*old(b)).skip(4),
{
    b.get_u32()
}

/// Relies on `Buf::get_u64` for `Bytes`: reads eight big-endian bytes and
/// advances past them.
#[verifier::external_body]
pub fn bytes_get_u64(b: &mut Bytes) -> (r: u64)
    requires
        bytes_view(*old(b)).len() >= 8,
    ensures
        r == be_u64_val(bytes_view(*old(b)).take(8)),
        bytes_view(*final(b)) == bytes_view(*old(b)).skip(8),
{
    b.get_u64()
}

/// Relies on `Buf::get_i8` for `Bytes`: the first byte, two's complement.
#[verifier::external_body]
pub fn bytes_get_i8(b: &mut Bytes) -> (r: i8)
    requires
        bytes_view(*old(b)).len() >= 1,
    ensures
        r == be_i8_val(bytes_view(*old(b)).take(1)),
        bytes_view(*final(b)) == bytes_view(*old(b)).skip(1),
{
    b.get_i8()
}

/// Relies on `Buf::get_i16` for `Bytes`: two big-endian bytes, two's
/// complement.
#[verifier::external_body]
pub fn bytes_get_i16(b: &mut Bytes) -> (r: i16)
    requires
        bytes_view(*old(b)).len() >= 2,
    ensures
        r == be_i16_val(bytes_view(*old(b)).take(2)),
        bytes_view(*final(b)) == bytes_view(*old(b)).skip(2),
{
    b.get_i16()
}

/// Relies on `Buf::get_i32` for `Bytes`: four big-endian bytes, two's
/// complement.
#[verifier::external_body]
pub fn bytes_get_i32(b: &mut Bytes) -> (r: i32)
    requires
        bytes_view(*old(b)).len() >= 4,
    ensures
        r == be_i32_val(bytes_view(*old(b)).take(4)),
        bytes_view(*final(b)) == bytes_view(*old(b)).skip(4),
{
    b.get_i32()
}

/// Relies on `Buf::get_i64` for `Bytes`: eight big-endian bytes, two's
/// complement.
#[verifier::external_body]
pub fn bytes_get_i64(b: &mut Bytes) -> (r: i64)
    requires
        bytes_view(*old(b)).len() >= 8,
    ensures
        r == be_i64_val(bytes_view(*old(b)).take(8)),
        bytes_view(*final(b)) == bytes_view(*old(b)).skip(8),
{
    b.get_i64()
}

/// Relies on `BytesMut::new`: an empty growable buffer.
#[verifier::external_body]
pub fn bytes_mut_new() -> (r: BytesMut)
    ensures
        bytes_mut_view(r) == Seq::<u8>::empty(),
{
    BytesMut::new()
}

/// Relies on `BufMut::remaining_mut` for `BytesMut`, whose source returns
/// `isize::MAX as usize - len` (the buffer grows on demand up to the largest
/// allocation).
#[verifier::external_body]
pub fn bytes_mut_remaining_mut(b: &BytesMut) -> (r: usize)
    ensures
        r == isize::MAX - bytes_mut_view(*b).len(),
{
    b.remaining_mut()
}

/// Relies on `BytesMut::freeze`: the same bytes, immutable.
#[verifier::external_body]
pub fn bytes_mut_freeze(b: BytesMut) -> (r: Bytes)
    ensures
        bytes_view(r) == bytes_mut_view(b),
{
    b.freeze()
}

/// Relies on `BufMut::put_u8` for `BytesMut`: appends one byte.
#[verifier::external_body]
pub fn bytes_mut_put_u8(b: &mut BytesMut, v: u8)
    requires
        bytes_mut_view(*old(b)).len() + 1 <= isize::MAX,
    ensures
        bytes_mut_view(*final(b)) == bytes_mut_view(*old(b)).push(v),
{
    b.put_u8(v)
}

/// Relies on `BufMut::put_u16` for `BytesMut`: appends two big-endian bytes.
#[verifier::external_body]
pub fn bytes_mut_put_u16(b: &mut BytesMut, v: u16)
    requires
        bytes_mut_view(*old(b)).len() + 2 <= isize::MAX,
    ensures
        bytes_mut_view(*final(b)) == bytes_mut_view(*old(b)) + u16_be_bytes(v),
{
    b.put_u16(v)
}

/// Relies on `BufMut::put_u32` for `BytesMut`: appends four big-endian
/// bytes.
#[verifier::external_body]
pub fn bytes_mut_put_u32(b: &mut BytesMut, v: u32)
    requires
        bytes_mut_view(*old(b)).len() + 4 <= isize::MAX,
    ensures
        bytes_mut_view(*final(b)) == bytes_mut_view(*old(b)) + u32_be_bytes(v),
{
    b.put_u32(v)
}

/// Relies on `BufMut::put_u64` for `BytesMut`: appends eight big-endian
/// bytes.
#[verifier::external_body]
pub fn bytes_mut_put_u64(b: &mut BytesMut, v: u64)
    requires
        bytes_mut_view(*old(b)).len() + 8 <= isize::MAX,
    ensures
        bytes_mut_view(*final(b)) == bytes_mut_view(*old(b)) + u64_be_bytes(v),
{
    b.put_u64(v)
}

/// Relies on `BufMut::put_i8` for `BytesMut`: appends the two's-complement
/// byte.
#[verifier::external_body]
pub fn bytes_mut_put_i8(b: &mut BytesMut, v: i8)
    requires
        bytes_mut_view(*old(b)).len() + 1 <= isize::MAX,
    ensures
        bytes_mut_view(*final(b)) == bytes_mut_view(*old(b)) + i8_be_bytes(v),
{
    b.put_i8(v)
}

/// Relies on `BufMut::put_i16` for `BytesMut`: appends two big-endian
/// two's-complement bytes.
#[verifier::external_body]
pub fn bytes_mut_put_i16(b: &mut BytesMut, v: i16)
    requires
        bytes_mut_view(*old(b)).len() + 2 <= isize::MAX,
    ensures
        bytes_mut_view(*final(b)) == bytes_mut_view(*old(b)) + i16_be_bytes(v),
{
    b.put_i16(v)
}

/// Relies on `BufMut::put_i32` for `BytesMut`: appends four big-endian
/// two's-complement bytes.
#[verifier::external_body]
pub fn bytes_mut_put_i32(b: &mut BytesMut, v: i32)
    requires
        bytes_mut_view(*old(b)).len() + 4 <= isize::MAX,
    ensures
        bytes_mut_view(*final(b)) == bytes_mut_view(*old(b)) + i32_be_bytes(v),
{
    b.put_i32(v)
}

/// Relies on `BufMut::put_i64` for `BytesMut`: appends eight big-endian
/// two's-complement bytes.
#[verifier::external_body]
pub fn bytes_mut_put_i64(b: &mut BytesMut, v: i64)
    requires
        bytes_mut_view(*old(b)).len() + 8 <= isize::MAX,
    ensures
        bytes_mut_view(*final(b)) == bytes_mut_view(*old(b)) + i64_be_bytes(v),
{
    b.put_i64(v)
}

/// Relies on `BufMut::put_slice` for `BytesMut`: appends the slice's bytes.
#[verifier::external_body]
pub fn bytes_mut_put_slice(b: &mut BytesMut, src: &[u8])
    requires
        bytes_mut_view(*old(b)).len() + src@.len() <= isize::MAX,
    ensures
        bytes_mut_view(*final(b)) == bytes_mut_view(*old(b)) + src@,
{
    b.put_slice(src)
}

/// Relies on `BufMut::put` for `BytesMut` with a `Bytes` source: appends
/// that buffer's bytes.
#[verifier::external_body]
pub fn bytes_mut_put_bytes_buf(b: &mut BytesMut, src: &Bytes)
    requires
        bytes_mut_view(*old(b)).len() + bytes_view(*src).len() <= isize::MAX,
    ensures
        bytes_mut_view(*final(b)) == bytes_mut_view(*old(b)) + bytes_view(*src),
{
    b.put(src.clone())
}

} // verus!
