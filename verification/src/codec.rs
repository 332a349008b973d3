//! The primitive-only (de)serialization engine.
//!
//! Only fixed-layout values travel on the wire: 8/16/32/64-bit integers in
//! big-endian order, booleans as a 32-bit 1 or 0, timestamps as two 32-bit
//! fields, raw byte blobs, and structs composed of these. A shape outside
//! this set simply has no `Encodable`/`Decodable` implementation, so an
//! unsupported shape is a compile-time impossibility rather than a runtime
//! failure.

use vstd::prelude::*;
use bytes::Bytes;
use bytes::BytesMut;
use crate::buffer::bytes_get_i16;
use crate::buffer::bytes_get_i32;
use crate::buffer::bytes_get_i64;
use crate::buffer::bytes_get_i8;
use crate::buffer::bytes_get_u16;
use crate::buffer::bytes_get_u32;
use crate::buffer::bytes_get_u64;
use crate::buffer::bytes_get_u8;
use crate::buffer::bytes_len;
use crate::buffer::bytes_mut_freeze;
use crate::buffer::bytes_mut_new;
use crate::buffer::bytes_mut_put_i16;
use crate::buffer::bytes_mut_put_i32;
use crate::buffer::bytes_mut_put_i64;
use crate::buffer::bytes_mut_put_i8;
use crate::buffer::bytes_mut_put_u16;
use crate::buffer::bytes_mut_put_u32;
use crate::buffer::bytes_mut_put_u64;
use crate::buffer::bytes_mut_put_u8;
use crate::buffer::bytes_mut_remaining_mut;
use crate::buffer::bytes_mut_view;
use crate::buffer::bytes_view;
use crate::endian::be_i16_val;
use crate::endian::be_i32_val;
use crate::endian::be_i64_val;
use crate::endian::be_i8_val;
use crate::endian::be_u16_val;
use crate::endian::be_u32_val;
use crate::endian::be_u64_val;
use crate::endian::i16_be_bytes;
use crate::endian::i32_be_bytes;
use crate::endian::i64_be_bytes;
use crate::endian::i8_be_bytes;
use crate::endian::u16_be_bytes;
use crate::endian::u32_be_bytes;
use crate::endian::u64_be_bytes;
use crate::error::BytesRequired;
use crate::error::Error;
use crate::time::TimeVal;
use crate::types::SenderId;
use crate::types::SequenceNumber;
use crate::types::TypeId;

verus! {

/// A value whose wire size is the same for every value of the type.
pub trait ConstantBufferSize {
    /// That size in bytes.
    spec fn constant_size_spec() -> int;

    fn constant_buffer_size() -> (r: usize)
        ensures
            r == Self::constant_size_spec(),
    ;
}

/// A value that can be written to the wire.
pub trait Encodable {
    /// The exact bytes this value contributes to the wire.
    spec fn encoding(&self) -> Seq<u8>;

    /// The number of bytes `buffer_ref` appends.
    fn buffer_size(&self) -> (r: usize)
        ensures
            r == self.encoding().len(),
    ;

    /// Appends the encoding to `buf`; fails with `OutOfBuffer`, writing
    /// nothing, when the destination cannot hold it.
    fn buffer_ref(&self, buf: &mut BytesMut) -> (r: Result<(), Error>)
        ensures
            bytes_mut_view(*old(buf)).len() + self.encoding().len() <= isize::MAX ==> (r
                == Ok::<(), Error>(()) && bytes_mut_view(*final(buf)) == bytes_mut_view(*old(buf))
                + self.encoding()),
            bytes_mut_view(*old(buf)).len() + self.encoding().len() > isize::MAX ==> (r == Err::<
                (),
                Error,
            >(Error::OutOfBuffer) && bytes_mut_view(*final(buf)) == bytes_mut_view(*old(buf))),
    ;
}

/// A value that can be read back from the wire.
pub trait Decodable: Sized {
    /// How many bytes a decode from `s` would consume, or `None` when `s`
    /// is too short.
    spec fn decode_len(s: Seq<u8>) -> Option<int>;

    /// The least number of further bytes that would let a decode from `s`
    /// make progress, where `decode_len(s)` is `None`.
    spec fn shortfall_spec(s: Seq<u8>) -> int;

    /// "The first `n` bytes of `s` decode exactly to `v`."
    spec fn decodes_to(s: Seq<u8>, v: Self, n: int) -> bool;

    /// A decode never consumes more than the buffer holds, and a shortfall
    /// is a positive number of bytes that fits the machine.
    proof fn lemma_decode_len_bounded(s: Seq<u8>)
        ensures
            Self::decode_len(s) matches Some(n) ==> 0 <= n <= s.len(),
            Self::decode_len(s) is None ==> 0 < Self::shortfall_spec(s) <= usize::MAX,
    ;

    /// Reads one value from the front of `buf`, consuming exactly its
    /// encoding; on a shortfall, consumes nothing and reports how many more
    /// bytes are needed.
    fn unbuffer_ref(buf: &mut Bytes) -> (r: Result<Self, Error>)
        ensures
            match Self::decode_len(bytes_view(*old(buf))) {
                Some(n) => r matches Ok(v) && Self::decodes_to(bytes_view(*old(buf)), v, n)
                    && bytes_view(*final(buf)) == bytes_view(*old(buf)).skip(n),
                None => r == Err::<Self, Error>(
                    Error::NeedMoreData(
                        BytesRequired::AtLeast(
                            Self::shortfall_spec(bytes_view(*old(buf))) as usize,
                        ),
                    ),
                ) && bytes_view(*final(buf)) == bytes_view(*old(buf)),
            },
    ;
}

/// Serializes a value into a fresh buffer: the closed-world counterpart of
/// a reflective serializer.
pub fn to_bytes<T: Encodable>(value: &T) -> (r: Result<Bytes, Error>)
    ensures
        value.encoding().len() <= isize::MAX ==> (r matches Ok(b) && bytes_view(b)
            == value.encoding()),
        value.encoding().len() > isize::MAX ==> r == Err::<Bytes, Error>(Error::OutOfBuffer),
{
    let mut buf = bytes_mut_new();
    match value.buffer_ref(&mut buf) {
        Ok(()) => Ok(bytes_mut_freeze(buf)),
        Err(e) => Err(e),
    }
}

/// Deserializes exactly one value from a self-contained buffer: bytes left
/// over after the value are a fatal `TrailingCharacters` condition.
pub fn from_buf<T: Decodable>(buf: &mut Bytes) -> (r: Result<T, Error>)
    ensures
        match T::decode_len(bytes_view(*old(buf))) {
            Some(n) => if n == bytes_view(*old(buf)).len() {
                r matches Ok(v) && T::decodes_to(bytes_view(*old(buf)), v, n)
            } else {
                r == Err::<T, Error>(Error::TrailingCharacters)
            },
            None => r == Err::<T, Error>(
                Error::NeedMoreData(
                    BytesRequired::AtLeast(T::shortfall_spec(bytes_view(*old(buf))) as usize),
                ),
            ),
        },
{
    proof {
        T::lemma_decode_len_bounded(bytes_view(*buf));
    }
    let v = T::unbuffer_ref(buf)?;
    if bytes_len(buf) > 0 {
        Err(Error::TrailingCharacters)
    } else {
        Ok(v)
    }
}

impl ConstantBufferSize for u8 {
    open spec fn constant_size_spec() -> int {
        1
    }

    fn constant_buffer_size() -> usize {
        1
    }
}

impl Encodable for u8 {
    open spec fn encoding(&self) -> Seq<u8> {
        seq![*self]
    }

    fn buffer_size(&self) -> usize {
        1
    }

    fn buffer_ref(&self, buf: &mut BytesMut) -> (r: Result<(), Error>) {
        if bytes_mut_remaining_mut(buf) < 1 {
            return Err(Error::OutOfBuffer);
        }
        bytes_mut_put_u8(buf, *self);
        assert(bytes_mut_view(*buf) =~= bytes_mut_view(*old(buf)) + self.encoding());
        Ok(())
    }
}

impl Decodable for u8 {
    open spec fn decode_len(s: Seq<u8>) -> Option<int> {
        if s.len() >= 1 {
            Some(1)
        } else {
            None
        }
    }

    open spec fn shortfall_spec(s: Seq<u8>) -> int {
        1 - s.len()
    }

    open spec fn decodes_to(s: Seq<u8>, v: u8, n: int) -> bool {
        n == 1 && s.len() >= 1 && v == s[0]
    }

    proof fn lemma_decode_len_bounded(s: Seq<u8>) {
    }

    fn unbuffer_ref(buf: &mut Bytes) -> (r: Result<u8, Error>) {
        let len = bytes_len(buf);
        if len < 1 {
            return Err(Error::NeedMoreData(BytesRequired::AtLeast(1 - len)));
        }
        Ok(bytes_get_u8(buf))
    }
}

impl ConstantBufferSize for i8 {
    open spec fn constant_size_spec() -> int {
        1
    }

    fn constant_buffer_size() -> usize {
        1
    }
}

impl Encodable for i8 {
    open spec fn encoding(&self) -> Seq<u8> {
        i8_be_bytes(*self)
    }

    fn buffer_size(&self) -> usize {
        1
    }

    fn buffer_ref(&self, buf: &mut BytesMut) -> (r: Result<(), Error>) {
        if bytes_mut_remaining_mut(buf) < 1 {
            return Err(Error::OutOfBuffer);
        }
        bytes_mut_put_i8(buf, *self);
        Ok(())
    }
}

impl Decodable for i8 {
    open spec fn decode_len(s: Seq<u8>) -> Option<int> {
        if s.len() >= 1 {
            Some(1)
        } else {
            None
        }
    }

    open spec fn shortfall_spec(s: Seq<u8>) -> int {
        1 - s.len()
    }

    open spec fn decodes_to(s: Seq<u8>, v: i8, n: int) -> bool {
        n == 1 && s.len() >= 1 && v == be_i8_val(s.take(1))
    }

    proof fn lemma_decode_len_bounded(s: Seq<u8>) {
    }

    fn unbuffer_ref(buf: &mut Bytes) -> (r: Result<i8, Error>) {
        let len = bytes_len(buf);
        if len < 1 {
            return Err(Error::NeedMoreData(BytesRequired::AtLeast(1 - len)));
        }
        Ok(bytes_get_i8(buf))
    }
}

impl ConstantBufferSize for u16 {
    open spec fn constant_size_spec() -> int {
        2
    }

    fn constant_buffer_size() -> usize {
        2
    }
}

impl Encodable for u16 {
    open spec fn encoding(&self) -> Seq<u8> {
        u16_be_bytes(*self)
    }

    fn buffer_size(&self) -> usize {
        2
    }

    fn buffer_ref(&self, buf: &mut BytesMut) -> (r: Result<(), Error>) {
        if bytes_mut_remaining_mut(buf) < 2 {
            return Err(Error::OutOfBuffer);
        }
        bytes_mut_put_u16(buf, *self);
        Ok(())
    }
}

impl Decodable for u16 {
    open spec fn decode_len(s: Seq<u8>) -> Option<int> {
        if s.len() >= 2 {
            Some(2)
        } else {
            None
        }
    }

    open spec fn shortfall_spec(s: Seq<u8>) -> int {
        2 - s.len()
    }

    open spec fn decodes_to(s: Seq<u8>, v: u16, n: int) -> bool {
        n == 2 && s.len() >= 2 && v == be_u16_val(s.take(2))
    }

    proof fn lemma_decode_len_bounded(s: Seq<u8>) {
    }

    fn unbuffer_ref(buf: &mut Bytes) -> (r: Result<u16, Error>) {
        let len = bytes_len(buf);
        if len < 2 {
            return Err(Error::NeedMoreData(BytesRequired::AtLeast(2 - len)));
        }
        Ok(bytes_get_u16(buf))
    }
}

impl ConstantBufferSize for i16 {
    open spec fn constant_size_spec() -> int {
        2
    }

    fn constant_buffer_size() -> usize {
        2
    }
}

impl Encodable for i16 {
    open spec fn encoding(&self) -> Seq<u8> {
        i16_be_bytes(*self)
    }

    fn buffer_size(&self) -> usize {
        2
    }

    fn buffer_ref(&self, buf: &mut BytesMut) -> (r: Result<(), Error>) {
        if bytes_mut_remaining_mut(buf) < 2 {
            return Err(Error::OutOfBuffer);
        }
        bytes_mut_put_i16(buf, *self);
        Ok(())
    }
}

impl Decodable for i16 {
    open spec fn decode_len(s: Seq<u8>) -> Option<int> {
        if s.len() >= 2 {
            Some(2)
        } else {
            None
        }
    }

    open spec fn shortfall_spec(s: Seq<u8>) -> int {
        2 - s.len()
    }

    open spec fn decodes_to(s: Seq<u8>, v: i16, n: int) -> bool {
        n == 2 && s.len() >= 2 && v == be_i16_val(s.take(2))
    }

    proof fn lemma_decode_len_bounded(s: Seq<u8>) {
    }

    fn unbuffer_ref(buf: &mut Bytes) -> (r: Result<i16, Error>) {
        let len = bytes_len(buf);
        if len < 2 {
            return Err(Error::NeedMoreData(BytesRequired::AtLeast(2 - len)));
        }
        Ok(bytes_get_i16(buf))
    }
}

impl ConstantBufferSize for u32 {
    open spec fn constant_size_spec() -> int {
        4
    }

    fn constant_buffer_size() -> usize {
        4
    }
}

impl Encodable for u32 {
    open spec fn encoding(&self) -> Seq<u8> {
        u32_be_bytes(*self)
    }

    fn buffer_size(&self) -> usize {
        4
    }

    fn buffer_ref(&self, buf: &mut BytesMut) -> (r: Result<(), Error>) {
        if bytes_mut_remaining_mut(buf) < 4 {
            return Err(Error::OutOfBuffer);
        }
        bytes_mut_put_u32(buf, *self);
        Ok(())
    }
}

impl Decodable for u32 {
    open spec fn decode_len(s: Seq<u8>) -> Option<int> {
        if s.len() >= 4 {
            Some(4)
        } else {
            None
        }
    }

    open spec fn shortfall_spec(s: Seq<u8>) -> int {
        4 - s.len()
    }

    open spec fn decodes_to(s: Seq<u8>, v: u32, n: int) -> bool {
        n == 4 && s.len() >= 4 && v == be_u32_val(s.take(4))
    }

    proof fn lemma_decode_len_bounded(s: Seq<u8>) {
    }

    fn unbuffer_ref(buf: &mut Bytes) -> (r: Result<u32, Error>) {
        let len = bytes_len(buf);
        if len < 4 {
            return Err(Error::NeedMoreData(BytesRequired::AtLeast(4 - len)));
        }
        Ok(bytes_get_u32(buf))
    }
}

impl ConstantBufferSize for i32 {
    open spec fn constant_size_spec() -> int {
        4
    }

    fn constant_buffer_size() -> usize {
        4
    }
}

impl Encodable for i32 {
    open spec fn encoding(&self) -> Seq<u8> {
        i32_be_bytes(*self)
    }

    fn buffer_size(&self) -> usize {
        4
    }

    fn buffer_ref(&self, buf: &mut BytesMut) -> (r: Result<(), Error>) {
        if bytes_mut_remaining_mut(buf) < 4 {
            return Err(Error::OutOfBuffer);
        }
        bytes_mut_put_i32(buf, *self);
        Ok(())
    }
}

impl Decodable for i32 {
    open spec fn decode_len(s: Seq<u8>) -> Option<int> {
        if s.len() >= 4 {
            Some(4)
        } else {
            None
        }
    }

    open spec fn shortfall_spec(s: Seq<u8>) -> int {
        4 - s.len()
    }

    open spec fn decodes_to(s: Seq<u8>, v: i32, n: int) -> bool {
        n == 4 && s.len() >= 4 && v == be_i32_val(s.take(4))
    }

    proof fn lemma_decode_len_bounded(s: Seq<u8>) {
    }

    fn unbuffer_ref(buf: &mut Bytes) -> (r: Result<i32, Error>) {
        let len = bytes_len(buf);
        if len < 4 {
            return Err(Error::NeedMoreData(BytesRequired::AtLeast(4 - len)));
        }
        Ok(bytes_get_i32(buf))
    }
}

impl ConstantBufferSize for u64 {
    open spec fn constant_size_spec() -> int {
        8
    }

    fn constant_buffer_size() -> usize {
        8
    }
}

impl Encodable for u64 {
    open spec fn encoding(&self) -> Seq<u8> {
        u64_be_bytes(*self)
    }

    fn buffer_size(&self) -> usize {
        8
    }

    fn buffer_ref(&self, buf: &mut BytesMut) -> (r: Result<(), Error>) {
        if bytes_mut_remaining_mut(buf) < 8 {
            return Err(Error::OutOfBuffer);
        }
        bytes_mut_put_u64(buf, *self);
        Ok(())
    }
}

impl Decodable for u64 {
    open spec fn decode_len(s: Seq<u8>) -> Option<int> {
        if s.len() >= 8 {
            Some(8)
        } else {
            None
        }
    }

    open spec fn shortfall_spec(s: Seq<u8>) -> int {
        8 - s.len()
    }

    open spec fn decodes_to(s: Seq<u8>, v: u64, n: int) -> bool {
        n == 8 && s.len() >= 8 && v == be_u64_val(s.take(8))
    }

    proof fn lemma_decode_len_bounded(s: Seq<u8>) {
    }

    fn unbuffer_ref(buf: &mut Bytes) -> (r: Result<u64, Error>) {
        let len = bytes_len(buf);
        if len < 8 {
            return Err(Error::NeedMoreData(BytesRequired::AtLeast(8 - len)));
        }
        Ok(bytes_get_u64(buf))
    }
}

impl ConstantBufferSize for i64 {
    open spec fn constant_size_spec() -> int {
        8
    }

    fn constant_buffer_size() -> usize {
        8
    }
}

impl Encodable for i64 {
    open spec fn encoding(&self) -> Seq<u8> {
        i64_be_bytes(*self)
    }

    fn buffer_size(&self) -> usize {
        8
    }

    fn buffer_ref(&self, buf: &mut BytesMut) -> (r: Result<(), Error>) {
        if bytes_mut_remaining_mut(buf) < 8 {
            return Err(Error::OutOfBuffer);
        }
        bytes_mut_put_i64(buf, *self);
        Ok(())
    }
}

impl Decodable for i64 {
    open spec fn decode_len(s: Seq<u8>) -> Option<int> {
        if s.len() >= 8 {
            Some(8)
        } else {
            None
        }
    }

    open spec fn shortfall_spec(s: Seq<u8>) -> int {
        8 - s.len()
    }

    open spec fn decodes_to(s: Seq<u8>, v: i64, n: int) -> bool {
        n == 8 && s.len() >= 8 && v == be_i64_val(s.take(8))
    }

    proof fn lemma_decode_len_bounded(s: Seq<u8>) {
    }

    fn unbuffer_ref(buf: &mut Bytes) -> (r: Result<i64, Error>) {
        let len = bytes_len(buf);
        if len < 8 {
            return Err(Error::NeedMoreData(BytesRequired::AtLeast(8 - len)));
        }
        Ok(bytes_get_i64(buf))
    }
}

/// A boolean travels as a 32-bit big-endian integer, 1 for true and 0 for
/// false; any other wire value reads back as false.
impl ConstantBufferSize for bool {
    open spec fn constant_size_spec() -> int {
        4
    }

    fn constant_buffer_size() -> usize {
        4
    }
}

impl Encodable for bool {
    open spec fn encoding(&self) -> Seq<u8> {
        u32_be_bytes(
            if *self {
                1u32
            } else {
                0u32
            },
        )
    }

    fn buffer_size(&self) -> usize {
        4
    }

    fn buffer_ref(&self, buf: &mut BytesMut) -> (r: Result<(), Error>) {
        if bytes_mut_remaining_mut(buf) < 4 {
            return Err(Error::OutOfBuffer);
        }
        bytes_mut_put_u32(
            buf,
            if *self {
                1
            } else {
                0
            },
        );
        Ok(())
    }
}

impl Decodable for bool {
    open spec fn decode_len(s: Seq<u8>) -> Option<int> {
        if s.len() >= 4 {
            Some(4)
        } else {
            None
        }
    }

    open spec fn shortfall_spec(s: Seq<u8>) -> int {
        4 - s.len()
    }

    open spec fn decodes_to(s: Seq<u8>, v: bool, n: int) -> bool {
        n == 4 && s.len() >= 4 && v == (be_u32_val(s.take(4)) == 1)
    }

    proof fn lemma_decode_len_bounded(s: Seq<u8>) {
    }

    fn unbuffer_ref(buf: &mut Bytes) -> (r: Result<bool, Error>) {
        let len = bytes_len(buf);
        if len < 4 {
            return Err(Error::NeedMoreData(BytesRequired::AtLeast(4 - len)));
        }
        Ok(bytes_get_u32(buf) == 1)
    }
}

/// A timestamp travels as seconds then microseconds, each a 32-bit
/// big-endian signed field.
impl ConstantBufferSize for TimeVal {
    open spec fn constant_size_spec() -> int {
        8
    }

    fn constant_buffer_size() -> usize {
        8
    }
}

impl Encodable for TimeVal {
    open spec fn encoding(&self) -> Seq<u8> {
        i32_be_bytes(self.seconds) + i32_be_bytes(self.microseconds)
    }

    fn buffer_size(&self) -> usize {
        8
    }

    fn buffer_ref(&self, buf: &mut BytesMut) -> (r: Result<(), Error>) {
        if bytes_mut_remaining_mut(buf) < 8 {
            return Err(Error::OutOfBuffer);
        }
        bytes_mut_put_i32(buf, self.seconds);
        bytes_mut_put_i32(buf, self.microseconds);
        assert(bytes_mut_view(*buf) =~= bytes_mut_view(*old(buf)) + self.encoding());
        Ok(())
    }
}

impl Decodable for TimeVal {
    open spec fn decode_len(s: Seq<u8>) -> Option<int> {
        if s.len() >= 8 {
            Some(8)
        } else {
            None
        }
    }

    open spec fn shortfall_spec(s: Seq<u8>) -> int {
        8 - s.len()
    }

    open spec fn decodes_to(s: Seq<u8>, v: TimeVal, n: int) -> bool {
        n == 8 && s.len() >= 8 && v.seconds == be_i32_val(s.take(4)) && v.microseconds
            == be_i32_val(s.subrange(4, 8))
    }

    proof fn lemma_decode_len_bounded(s: Seq<u8>) {
    }

    fn unbuffer_ref(buf: &mut Bytes) -> (r: Result<TimeVal, Error>) {
        let len = bytes_len(buf);
        if len < 8 {
            return Err(Error::NeedMoreData(BytesRequired::AtLeast(8 - len)));
        }
        let seconds = bytes_get_i32(buf);
        let microseconds = bytes_get_i32(buf);
        proof {
            assert(bytes_view(*old(buf)).skip(4).take(4) =~= bytes_view(*old(buf)).subrange(4, 8));
            assert(bytes_view(*old(buf)).skip(4).skip(4) =~= bytes_view(*old(buf)).skip(8));
        }
        Ok(TimeVal { seconds, microseconds })
    }
}

/// A sequence number travels as a 32-bit big-endian unsigned field.
impl ConstantBufferSize for SequenceNumber {
    open spec fn constant_size_spec() -> int {
        4
    }

    fn constant_buffer_size() -> usize {
        4
    }
}

impl Encodable for SequenceNumber {
    open spec fn encoding(&self) -> Seq<u8> {
        u32_be_bytes(self.0)
    }

    fn buffer_size(&self) -> usize {
        4
    }

    fn buffer_ref(&self, buf: &mut BytesMut) -> (r: Result<(), Error>) {
        if bytes_mut_remaining_mut(buf) < 4 {
            return Err(Error::OutOfBuffer);
        }
        bytes_mut_put_u32(buf, self.0);
        Ok(())
    }
}

impl Decodable for SequenceNumber {
    open spec fn decode_len(s: Seq<u8>) -> Option<int> {
        if s.len() >= 4 {
            Some(4)
        } else {
            None
        }
    }

    open spec fn shortfall_spec(s: Seq<u8>) -> int {
        4 - s.len()
    }

    open spec fn decodes_to(s: Seq<u8>, v: SequenceNumber, n: int) -> bool {
        n == 4 && s.len() >= 4 && v.0 == be_u32_val(s.take(4))
    }

    proof fn lemma_decode_len_bounded(s: Seq<u8>) {
    }

    fn unbuffer_ref(buf: &mut Bytes) -> (r: Result<SequenceNumber, Error>) {
        let len = bytes_len(buf);
        if len < 4 {
            return Err(Error::NeedMoreData(BytesRequired::AtLeast(4 - len)));
        }
        Ok(SequenceNumber(bytes_get_u32(buf)))
    }
}

/// A sender ID travels as a 32-bit big-endian signed field.
impl ConstantBufferSize for SenderId {
    open spec fn constant_size_spec() -> int {
        4
    }

    fn constant_buffer_size() -> usize {
        4
    }
}

impl Encodable for SenderId {
    open spec fn encoding(&self) -> Seq<u8> {
        i32_be_bytes(self.0)
    }

    fn buffer_size(&self) -> usize {
        4
    }

    fn buffer_ref(&self, buf: &mut BytesMut) -> (r: Result<(), Error>) {
        if bytes_mut_remaining_mut(buf) < 4 {
            return Err(Error::OutOfBuffer);
        }
        bytes_mut_put_i32(buf, self.0);
        Ok(())
    }
}

impl Decodable for SenderId {
    open spec fn decode_len(s: Seq<u8>) -> Option<int> {
        if s.len() >= 4 {
            Some(4)
        } else {
            None
        }
    }

    open spec fn shortfall_spec(s: Seq<u8>) -> int {
        4 - s.len()
    }

    open spec fn decodes_to(s: Seq<u8>, v: SenderId, n: int) -> bool {
        n == 4 && s.len() >= 4 && v.0 == be_i32_val(s.take(4))
    }

    proof fn lemma_decode_len_bounded(s: Seq<u8>) {
    }

    fn unbuffer_ref(buf: &mut Bytes) -> (r: Result<SenderId, Error>) {
        let len = bytes_len(buf);
        if len < 4 {
            return Err(Error::NeedMoreData(BytesRequired::AtLeast(4 - len)));
        }
        Ok(SenderId(bytes_get_i32(buf)))
    }
}

/// A type ID travels as a 32-bit big-endian signed field.
impl ConstantBufferSize for TypeId {
    open spec fn constant_size_spec() -> int {
        4
    }

    fn constant_buffer_size() -> usize {
        4
    }
}

impl Encodable for TypeId {
    open spec fn encoding(&self) -> Seq<u8> {
        i32_be_bytes(self.0)
    }

    fn buffer_size(&self) -> usize {
        4
    }

    fn buffer_ref(&self, buf: &mut BytesMut) -> (r: Result<(), Error>) {
        if bytes_mut_remaining_mut(buf) < 4 {
            return Err(Error::OutOfBuffer);
        }
        bytes_mut_put_i32(buf, self.0);
        Ok(())
    }
}

impl Decodable for TypeId {
    open spec fn decode_len(s: Seq<u8>) -> Option<int> {
        if s.len() >= 4 {
            Some(4)
        } else {
            None
        }
    }

    open spec fn shortfall_spec(s: Seq<u8>) -> int {
        4 - s.len()
    }

    open spec fn decodes_to(s: Seq<u8>, v: TypeId, n: int) -> bool {
        n == 4 && s.len() >= 4 && v.0 == be_i32_val(s.take(4))
    }

    proof fn lemma_decode_len_bounded(s: Seq<u8>) {
    }

    fn unbuffer_ref(buf: &mut Bytes) -> (r: Result<TypeId, Error>) {
        let len = bytes_len(buf);
        if len < 4 {
            return Err(Error::NeedMoreData(BytesRequired::AtLeast(4 - len)));
        }
        Ok(TypeId(bytes_get_i32(buf)))
    }
}

} // verus!
