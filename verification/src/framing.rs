//! The frame codec: a sequenced generic message to and from its bytes on
//! the wire.
//!
//! A frame is the 4-byte big-endian length field, two 32-bit timestamp
//! fields, the sender ID, the type ID, the 4-byte sequence number, the raw
//! body, and zero padding out to the wire alignment. Decode attempts are
//! pure over the buffer contents: an attempt either consumes exactly one
//! whole frame or reports a shortfall and leaves the buffer untouched, so
//! retrying after more bytes arrive is safe.

use vstd::prelude::*;
use bytes::BytesMut;
use bytes::Bytes;
use crate::buffer::bytes_clone;
use crate::buffer::bytes_get_i32;
use crate::buffer::bytes_get_u32;
use crate::buffer::bytes_len;
use crate::buffer::bytes_mut_put_bytes_buf;
use crate::buffer::bytes_mut_put_i32;
use crate::buffer::bytes_mut_put_u32;
use crate::buffer::bytes_mut_put_u8;
use crate::buffer::bytes_mut_remaining_mut;
use crate::buffer::bytes_mut_view;
use crate::buffer::bytes_split_to;
use crate::buffer::bytes_view;
use crate::endian::be_i32_val;
use crate::endian::be_u32_val;
use crate::endian::i32_be_bytes;
use crate::endian::lemma_i32_roundtrip;
use crate::endian::lemma_u32_roundtrip;
use crate::endian::u32_be_bytes;
use crate::endian::zero_bytes;
use crate::error::BytesRequired;
use crate::error::Error;
use crate::message::GenericBody;
use crate::message::SequencedGenericMessage;
use crate::message::SequencedMessage;
use crate::size::MessageSize;
use crate::size::lemma_padding_bounds;
use crate::size::spec_body_size_of_length_field;
use crate::size::spec_length_field_of;
use crate::size::spec_padded_message_size_of;
use crate::size::spec_padding;
use crate::time::TimeVal;
use crate::types::SenderId;
use crate::types::SequenceNumber;
use crate::types::TypeId;

verus! {

/// Sanity cap on a frame's declared length field (1 MiB). A declared
/// length beyond this is treated as a fatal protocol violation, never as a
/// request to buffer gigabytes.
pub const MAX_LENGTH_FIELD: u32 = 0x0010_0000;

/// The length field declared by the first four bytes of a buffer.
pub open spec fn frame_length_field_val(s: Seq<u8>) -> int
    recommends
        s.len() >= 4,
{
    be_u32_val(s.take(4))
}

/// A declared length field is plausible when it covers at least the padded
/// header and stays under the sanity cap.
pub open spec fn length_field_valid(length_field: int) -> bool {
    MessageSize::PADDED_HEADER_SIZE <= length_field <= MAX_LENGTH_FIELD
}

/// How many bytes the frame declared by the front of `s` occupies in all.
pub open spec fn frame_total_size(s: Seq<u8>) -> int
    recommends
        s.len() >= 4,
{
    spec_padded_message_size_of(spec_body_size_of_length_field(frame_length_field_val(s)))
}

/// The buffer starts with one whole, plausible frame.
pub open spec fn frame_complete(s: Seq<u8>) -> bool {
    &&& s.len() >= 4
    &&& length_field_valid(frame_length_field_val(s))
    &&& s.len() >= frame_total_size(s)
}

/// "The frame at the front of `s` carries exactly the header, body and
/// sequence number of `m`."
pub open spec fn frame_decodes_to(s: Seq<u8>, m: SequencedGenericMessage) -> bool
    recommends
        frame_complete(s),
{
    let body_len = spec_body_size_of_length_field(frame_length_field_val(s));
    &&& m.message.header.time.seconds == be_i32_val(s.subrange(4, 8))
    &&& m.message.header.time.microseconds == be_i32_val(s.subrange(8, 12))
    &&& m.message.header.sender.0 == be_i32_val(s.subrange(12, 16))
    &&& m.message.header.message_type.0 == be_i32_val(s.subrange(16, 20))
    &&& m.sequence_number.0 == be_u32_val(s.subrange(20, 24))
    &&& m.message.body@ == s.subrange(24, 24 + body_len)
}

impl SequencedMessage<GenericBody> {
    /// The frame bytes before padding: length field, timestamp, sender,
    /// type, sequence number, body.
    pub open spec fn frame_bytes_unpadded(self) -> Seq<u8>
        recommends
            spec_length_field_of(self.message.body@.len() as int) <= u32::MAX,
    {
        u32_be_bytes(spec_length_field_of(self.message.body@.len() as int) as u32)
            + i32_be_bytes(self.message.header.time.seconds)
            + i32_be_bytes(self.message.header.time.microseconds)
            + i32_be_bytes(self.message.header.sender.0)
            + i32_be_bytes(self.message.header.message_type.0)
            + u32_be_bytes(self.sequence_number.0)
            + self.message.body@
    }

    /// The complete frame as it travels on the wire.
    pub open spec fn frame_bytes(self) -> Seq<u8>
        recommends
            spec_length_field_of(self.message.body@.len() as int) <= u32::MAX,
    {
        self.frame_bytes_unpadded() + zero_bytes(spec_padding(self.message.body@.len() as int))
    }

    /// The buffer space this message needs once framed.
    pub fn buffer_size(&self) -> (r: usize)
        requires
            spec_padded_message_size_of(self.message.body@.len() as int) <= usize::MAX,
        ensures
            r == spec_padded_message_size_of(self.message.body@.len() as int),
    {
        generic_message_size(self).padded_message_size()
    }

    /// Appends the frame to `buf`. Fails with `OutOfBuffer`, writing
    /// nothing, when the destination cannot hold the whole frame.
    pub fn buffer_ref(&self, buf: &mut BytesMut) -> (r: Result<(), Error>)
        requires
            spec_length_field_of(self.message.body@.len() as int) <= u32::MAX,
            spec_padded_message_size_of(self.message.body@.len() as int) <= usize::MAX,
        ensures
            bytes_mut_view(*old(buf)).len() + spec_padded_message_size_of(
                self.message.body@.len() as int,
            ) <= isize::MAX ==> (r == Ok::<(), Error>(()) && bytes_mut_view(*final(buf))
                == bytes_mut_view(*old(buf)) + self.frame_bytes()),
            bytes_mut_view(*old(buf)).len() + spec_padded_message_size_of(
                self.message.body@.len() as int,
            ) > isize::MAX ==> (r == Err::<(), Error>(Error::OutOfBuffer) && bytes_mut_view(
                *final(buf),
            ) == bytes_mut_view(*old(buf))),
    {
        let ghost body = self.message.body@;
        proof {
            lemma_padding_bounds(body.len() as int);
        }
        let size = generic_message_size(self);
        let total = size.padded_message_size();
        if bytes_mut_remaining_mut(buf) < total {
            return Err(Error::OutOfBuffer);
        }
        let length_field = size.length_field();
        bytes_mut_put_u32(buf, length_field);
        bytes_mut_put_i32(buf, self.message.header.time.seconds);
        bytes_mut_put_i32(buf, self.message.header.time.microseconds);
        bytes_mut_put_i32(buf, self.message.header.sender.0);
        bytes_mut_put_i32(buf, self.message.header.message_type.0);
        bytes_mut_put_u32(buf, self.sequence_number.0);
        bytes_mut_put_bytes_buf(buf, &self.message.body.inner);
        assert(bytes_mut_view(*buf) =~= bytes_mut_view(*old(buf)) + self.frame_bytes_unpadded());
        let padding = size.body_padding();
        let mut i: usize = 0;
        while i < padding
            invariant
                i <= padding,
                padding == spec_padding(body.len() as int),
                body == self.message.body@,
                spec_length_field_of(body.len() as int) <= u32::MAX,
                bytes_mut_view(*old(buf)).len() + spec_padded_message_size_of(body.len() as int)
                    <= isize::MAX,
                bytes_mut_view(*buf) == bytes_mut_view(*old(buf)) + self.frame_bytes_unpadded()
                    + zero_bytes(i as int),
            decreases padding - i,
        {
            proof {
                lemma_padding_bounds(body.len() as int);
            }
            bytes_mut_put_u8(buf, 0);
            proof {
                assert(zero_bytes(i as int).push(0u8) =~= zero_bytes(i as int + 1));
                assert((bytes_mut_view(*old(buf)) + self.frame_bytes_unpadded() + zero_bytes(
                    i as int,
                )).push(0u8) =~= bytes_mut_view(*old(buf)) + self.frame_bytes_unpadded()
                    + zero_bytes(i as int + 1));
            }
            i = i + 1;
        }
        assert(bytes_mut_view(*buf) =~= bytes_mut_view(*old(buf)) + self.frame_bytes());
        Ok(())
    }

    /// Decodes one frame from the front of `buf`.
    ///
    /// With fewer than four bytes, at least the rest of the length field is
    /// needed; with a plausible length field but an incomplete frame,
    /// exactly the shortfall is reported; an implausible length field is a
    /// fatal protocol violation. In every failing case the buffer is left
    /// untouched. On success exactly the frame's bytes are consumed.
    pub fn unbuffer_ref(buf: &mut Bytes) -> (r: Result<SequencedGenericMessage, Error>)
        ensures
            bytes_view(*old(buf)).len() < 4 ==> (r == Err::<SequencedGenericMessage, Error>(
                Error::NeedMoreData(
                    BytesRequired::AtLeast((4 - bytes_view(*old(buf)).len()) as usize),
                ),
            ) && bytes_view(*final(buf)) == bytes_view(*old(buf))),
            bytes_view(*old(buf)).len() >= 4 && !length_field_valid(
                frame_length_field_val(bytes_view(*old(buf))),
            ) ==> (r == Err::<SequencedGenericMessage, Error>(
                Error::InvalidLengthField(frame_length_field_val(bytes_view(*old(buf))) as u32),
            ) && bytes_view(*final(buf)) == bytes_view(*old(buf))),
            bytes_view(*old(buf)).len() >= 4 && length_field_valid(
                frame_length_field_val(bytes_view(*old(buf))),
            ) && bytes_view(*old(buf)).len() < frame_total_size(bytes_view(*old(buf))) ==> (r
                == Err::<SequencedGenericMessage, Error>(
                Error::NeedMoreData(
                    BytesRequired::Exactly(
                        (frame_total_size(bytes_view(*old(buf))) - bytes_view(
                            *old(buf),
                        ).len()) as usize,
                    ),
                ),
            ) && bytes_view(*final(buf)) == bytes_view(*old(buf))),
            frame_complete(bytes_view(*old(buf))) ==> (r matches Ok(m) && frame_decodes_to(
                bytes_view(*old(buf)),
                m,
            ) && bytes_view(*final(buf)) == bytes_view(*old(buf)).skip(
                frame_total_size(bytes_view(*old(buf))),
            )),
    {
        let ghost s = bytes_view(*buf);
        let len = bytes_len(buf);
        if len < 4 {
            return Err(Error::NeedMoreData(BytesRequired::AtLeast(4 - len)));
        }
        let mut work = bytes_clone(buf);
        let length_field = bytes_get_u32(&mut work);
        if length_field < MessageSize::PADDED_HEADER_SIZE as u32 || length_field > MAX_LENGTH_FIELD {
            return Err(Error::InvalidLengthField(length_field));
        }
        let size = MessageSize::from_length_field(length_field);
        proof {
            lemma_padding_bounds(size.unpadded_body_size as int);
        }
        let total = size.padded_message_size();
        if len < total {
            return Err(Error::NeedMoreData(BytesRequired::Exactly(total - len)));
        }
        let seconds = bytes_get_i32(&mut work);
        let microseconds = bytes_get_i32(&mut work);
        let sender = bytes_get_i32(&mut work);
        let message_type = bytes_get_i32(&mut work);
        let sequence_number = bytes_get_u32(&mut work);
        proof {
            assert(s.skip(4).take(4) =~= s.subrange(4, 8));
            assert(s.skip(4).skip(4) =~= s.skip(8));
            assert(s.skip(8).take(4) =~= s.subrange(8, 12));
            assert(s.skip(8).skip(4) =~= s.skip(12));
            assert(s.skip(12).take(4) =~= s.subrange(12, 16));
            assert(s.skip(12).skip(4) =~= s.skip(16));
            assert(s.skip(16).take(4) =~= s.subrange(16, 20));
            assert(s.skip(16).skip(4) =~= s.skip(20));
            assert(s.skip(20).take(4) =~= s.subrange(20, 24));
            assert(s.skip(20).skip(4) =~= s.skip(24));
        }
        let body_len = size.unpadded_body_size();
        let body_bytes = bytes_split_to(&mut work, body_len);
        proof {
            assert(s.skip(24).take(body_len as int) =~= s.subrange(24, 24 + body_len));
        }
        let _consumed = bytes_split_to(buf, total);
        let msg = SequencedMessage::new(
            Some(TimeVal::new(seconds, microseconds)),
            TypeId(message_type),
            SenderId(sender),
            GenericBody::new(body_bytes),
            SequenceNumber(sequence_number),
        );
        Ok(msg)
    }
}

/// The `MessageSize` of a sequenced generic message, from its body alone.
fn generic_message_size(msg: &SequencedGenericMessage) -> (r: MessageSize)
    ensures
        r.unpadded_body_size == msg.message.body@.len(),
{
    MessageSize::from_unpadded_body_size(bytes_len(&msg.message.body.inner))
}

/// Law: framing a message and decoding the result yields the original
/// header, body and sequence number, for every message whose framed length
/// stays under the sanity cap.
pub proof fn lemma_frame_roundtrip(m: SequencedGenericMessage)
    requires
        spec_length_field_of(m.message.body@.len() as int) <= MAX_LENGTH_FIELD,
    ensures
        frame_complete(m.frame_bytes()),
        frame_decodes_to(m.frame_bytes(), m),
        frame_total_size(m.frame_bytes()) == m.frame_bytes().len(),
        m.frame_bytes().len() as int % (crate::constants::ALIGN as int) == 0,
{
    crate::size::lemma_length_field_of_body_size(m.message.body@.len() as int);
    let body = m.message.body@;
    let l = body.len() as int;
    let lf = spec_length_field_of(l);
    let s = m.frame_bytes();
    lemma_padding_bounds(l);
    lemma_u32_roundtrip(lf as u32);
    lemma_u32_roundtrip(m.sequence_number.0);
    lemma_i32_roundtrip(m.message.header.time.seconds);
    lemma_i32_roundtrip(m.message.header.time.microseconds);
    lemma_i32_roundtrip(m.message.header.sender.0);
    lemma_i32_roundtrip(m.message.header.message_type.0);
    assert(s.len() == 24 + l + spec_padding(l));
    assert(s.take(4) =~= u32_be_bytes(lf as u32));
    assert(frame_length_field_val(s) == lf);
    assert(s.subrange(4, 8) =~= i32_be_bytes(m.message.header.time.seconds));
    assert(s.subrange(8, 12) =~= i32_be_bytes(m.message.header.time.microseconds));
    assert(s.subrange(12, 16) =~= i32_be_bytes(m.message.header.sender.0));
    assert(s.subrange(16, 20) =~= i32_be_bytes(m.message.header.message_type.0));
    assert(s.subrange(20, 24) =~= u32_be_bytes(m.sequence_number.0));
    assert(s.subrange(24, 24 + l) =~= body);
}

/// Law: a buffer holding a complete frame short of its last `k` bytes (but
/// still holding the length field) decodes to a shortfall of exactly `k`;
/// supplying those `k` bytes makes the frame complete again.
pub proof fn lemma_frame_truncation(m: SequencedGenericMessage, k: int)
    requires
        spec_length_field_of(m.message.body@.len() as int) <= MAX_LENGTH_FIELD,
        1 <= k <= m.frame_bytes().len() - 4,
    ensures
        !frame_complete(m.frame_bytes().take(m.frame_bytes().len() - k)),
        m.frame_bytes().take(m.frame_bytes().len() - k).len() >= 4,
        length_field_valid(
            frame_length_field_val(m.frame_bytes().take(m.frame_bytes().len() - k)),
        ),
        frame_total_size(m.frame_bytes().take(m.frame_bytes().len() - k)) - m.frame_bytes().take(
            m.frame_bytes().len() - k,
        ).len() == k,
{
    let s = m.frame_bytes();
    let t = s.take(s.len() - k);
    lemma_frame_roundtrip(m);
    assert(t.take(4) =~= s.take(4));
    assert(frame_length_field_val(t) == frame_length_field_val(s));
}

} // verus!
