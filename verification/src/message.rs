//! Messages: header, typed or generic body, sequence number, and the
//! conversions between typed and generic form.
//!
//! A body arrives as raw bytes (`GenericBody`) and is decoded into a typed
//! shape only once dispatch has resolved its logical type; outbound, a typed
//! body is serialized to generic bytes before framing. The frame codec
//! itself lives in `framing`.

use vstd::prelude::*;
use bytes::Bytes;
use crate::buffer::bytes_clone;
use crate::buffer::bytes_len;
use crate::buffer::bytes_mut_new;
use crate::buffer::bytes_mut_freeze;
use crate::buffer::bytes_mut_put_bytes_buf;
use crate::buffer::bytes_mut_remaining_mut;
use crate::buffer::bytes_mut_view;
use crate::buffer::bytes_new;
use crate::buffer::bytes_view;
use crate::codec::Decodable;
use crate::codec::Encodable;
use crate::error::BytesRequired;
use crate::error::Error;
use crate::time::TimeVal;
use crate::types::IntoId;
use crate::types::SenderId;
use crate::types::SequenceNumber;
use crate::types::StaticTypeName;
use crate::types::TypeId;

verus! {

/// Marker for types that can be placed in a message body.
pub trait MessageBody {

}

/// How a typed message body identifies its message type.
#[derive(Debug, Clone, Copy)]
pub enum MessageTypeIdentifier {
    /// User message types are identified by a name that each side
    /// dynamically associates with a numeric ID.
    UserMessageName(StaticTypeName),
    /// System message types are identified by a reserved, negative type ID.
    SystemMessageId(TypeId),
}

/// A typed message body: a fixed-layout shape with a known message-type
/// identity.
pub trait TypedMessageBody {
    /// The name (for user messages) or reserved ID (for system messages)
    /// that identifies this body's message type.
    spec fn message_identifier_spec() -> MessageTypeIdentifier;

    fn message_identifier() -> (r: MessageTypeIdentifier)
        ensures
            r == Self::message_identifier_spec(),
    ;
}

impl<T: TypedMessageBody> MessageBody for T {

}

/// Header information for a message. Immutable once constructed.
#[derive(Debug, Clone, Copy, Eq, PartialEq, Ord, PartialOrd, Hash, Structural)]
pub struct MessageHeader {
    pub time: TimeVal,
    pub message_type: TypeId,
    pub sender: SenderId,
}

impl MessageHeader {
    /// Builds a header. A missing timestamp is recorded as the zero time;
    /// callers that want a wall-clock stamp read the clock at the edge and
    /// pass it in.
    pub fn new<M: IntoId<BaseId = TypeId>, S: IntoId<BaseId = SenderId>>(
        time: Option<TimeVal>,
        message_type: M,
        sender: S,
    ) -> (r: MessageHeader)
        ensures
            r.message_type == message_type.into_id_spec(),
            r.sender == sender.into_id_spec(),
            time matches Some(t) ==> r.time == t,
            time is None ==> r.time == (TimeVal { seconds: 0, microseconds: 0 }),
    {
        let t = match time {
            Some(t) => t,
            None => TimeVal::zero(),
        };
        MessageHeader { time: t, message_type: message_type.into_id(), sender: sender.into_id() }
    }
}

/// A message with header information, almost ready to be framed for the
/// wire.
#[derive(Debug, Clone, Eq, PartialEq, Ord, PartialOrd, Hash)]
pub struct Message<T: MessageBody> {
    pub header: MessageHeader,
    pub body: T,
}

/// A message whose body is still (or again) raw bytes.
pub type GenericMessage = Message<GenericBody>;

impl<T: MessageBody> Message<T> {
    pub fn new<M: IntoId<BaseId = TypeId>, S: IntoId<BaseId = SenderId>>(
        time: Option<TimeVal>,
        message_type: M,
        sender: S,
        body: T,
    ) -> (r: Message<T>)
        ensures
            r.header.message_type == message_type.into_id_spec(),
            r.header.sender == sender.into_id_spec(),
            time matches Some(t) ==> r.header.time == t,
            time is None ==> r.header.time == (TimeVal { seconds: 0, microseconds: 0 }),
            r.body == body,
    {
        Message { header: MessageHeader::new(time, message_type, sender), body }
    }

    /// Creates a message by combining a header and a body.
    pub fn from_header_and_body(header: MessageHeader, body: T) -> (r: Message<T>)
        ensures
            r.header == header,
            r.body == body,
    {
        Message { header, body }
    }

    /// Consumes this message and returns a new `SequencedMessage` carrying
    /// the supplied sequence number.
    pub fn into_sequenced_message(self, sequence_number: SequenceNumber) -> (r: SequencedMessage<
        T,
    >)
        ensures
            r.message == self,
            r.sequence_number == sequence_number,
    {
        SequencedMessage { message: self, sequence_number }
    }

    /// True if the message type indicates a "system" message (type ID < 0).
    pub fn is_system_message(&self) -> (r: bool)
        ensures
            r == (self.header.message_type.0 < 0),
    {
        self.header.message_type.is_system_message()
    }
}

impl<T: TypedMessageBody + Decodable> Message<T> {
    /// Decodes a typed message from a generic one. The generic body must
    /// hold exactly one encoded `T`: a shortfall is reported as
    /// `NeedMoreData`, unconsumed bytes as `TrailingCharacters`.
    pub fn try_from_generic(msg: &GenericMessage) -> (r: Result<Message<T>, Error>)
        ensures
            match T::decode_len(msg.body@) {
                Some(n) => if n == msg.body@.len() {
                    r matches Ok(m) && T::decodes_to(msg.body@, m.body, n) && m.header
                        == msg.header
                } else {
                    r == Err::<Message<T>, Error>(Error::TrailingCharacters)
                },
                None => r == Err::<Message<T>, Error>(
                    Error::NeedMoreData(
                        BytesRequired::AtLeast(T::shortfall_spec(msg.body@) as usize),
                    ),
                ),
            },
    {
        let mut buf = bytes_clone(&msg.body.inner);
        let body = crate::codec::from_buf::<T>(&mut buf)?;
        Ok(Message::from_header_and_body(msg.header, body))
    }
}

impl<T: TypedMessageBody + Encodable> Message<T> {
    /// Serializes the typed body, yielding a generic message with the same
    /// header.
    pub fn try_into_generic(self) -> (r: Result<GenericMessage, Error>)
        ensures
            self.body.encoding().len() <= isize::MAX ==> (r matches Ok(m) && m.header
                == self.header && m.body@ == self.body.encoding()),
            self.body.encoding().len() > isize::MAX ==> r == Err::<GenericMessage, Error>(
                Error::OutOfBuffer,
            ),
    {
        let mut buf = bytes_mut_new();
        match self.body.buffer_ref(&mut buf) {
            Ok(()) => Ok(
                GenericMessage::from_header_and_body(
                    self.header,
                    GenericBody::new(bytes_mut_freeze(buf)),
                ),
            ),
            Err(e) => Err(e),
        }
    }
}

/// A message with header information and sequence number, ready to be
/// framed for the wire.
#[derive(Debug, Clone, Eq, PartialEq, Ord, PartialOrd, Hash)]
pub struct SequencedMessage<T: MessageBody> {
    pub message: Message<T>,
    pub sequence_number: SequenceNumber,
}

/// A sequenced message whose body is raw bytes: the shape that frames
/// decode to and encode from.
pub type SequencedGenericMessage = SequencedMessage<GenericBody>;

impl<T: MessageBody> SequencedMessage<T> {
    pub fn new(
        time: Option<TimeVal>,
        message_type: TypeId,
        sender: SenderId,
        body: T,
        sequence_number: SequenceNumber,
    ) -> (r: SequencedMessage<T>)
        ensures
            r.message.header.message_type == message_type,
            r.message.header.sender == sender,
            time matches Some(t) ==> r.message.header.time == t,
            time is None ==> r.message.header.time == (TimeVal { seconds: 0, microseconds: 0 }),
            r.message.body == body,
            r.sequence_number == sequence_number,
    {
        SequencedMessage { message: Message::new(time, message_type, sender, body), sequence_number }
    }

    /// Discards the sequence number.
    pub fn into_message(self) -> (r: Message<T>)
        ensures
            r == self.message,
    {
        self.message
    }
}

impl<T: MessageBody> From<SequencedMessage<T>> for Message<T> {
    fn from(v: SequencedMessage<T>) -> (r: Message<T>) {
        v.message
    }
}

impl<T: MessageBody> vstd::std_specs::convert::FromSpecImpl<SequencedMessage<T>> for Message<T> {
    open spec fn obeys_from_spec() -> bool {
        true
    }

    open spec fn from_spec(v: SequencedMessage<T>) -> Message<T> {
        v.message
    }
}

/// A message body that has not (or not yet) been decoded: raw bytes as they
/// appeared between the frame header and the padding.
#[derive(Debug, Eq, PartialEq, Hash)]
pub struct GenericBody {
    pub inner: Bytes,
}

impl Clone for GenericBody {
    /// A second handle to the same bytes.
    fn clone(&self) -> (r: GenericBody)
        ensures
            r@ == self@,
    {
        GenericBody { inner: bytes_clone(&self.inner) }
    }
}

impl View for GenericBody {
    type V = Seq<u8>;

    open spec fn view(&self) -> Seq<u8> {
        bytes_view(self.inner)
    }
}

impl GenericBody {
    pub fn new(inner: Bytes) -> (r: GenericBody)
        ensures
            r.inner == inner,
    {
        GenericBody { inner }
    }

    /// The number of body bytes.
    pub fn len(&self) -> (r: usize)
        ensures
            r == self@.len(),
    {
        bytes_len(&self.inner)
    }
}

impl Default for GenericBody {
    /// An empty body.
    fn default() -> (r: GenericBody)
        ensures
            r@ == Seq::<u8>::empty(),
    {
        GenericBody::new(bytes_new())
    }
}

impl MessageBody for GenericBody {

}

impl Encodable for GenericBody {
    open spec fn encoding(&self) -> Seq<u8> {
        self@
    }

    fn buffer_size(&self) -> usize {
        bytes_len(&self.inner)
    }

    fn buffer_ref(&self, buf: &mut bytes::BytesMut) -> (r: Result<(), Error>) {
        let len = bytes_len(&self.inner);
        if bytes_mut_remaining_mut(buf) < len {
            return Err(Error::OutOfBuffer);
        }
        bytes_mut_put_bytes_buf(buf, &self.inner);
        Ok(())
    }
}

/// Decodes the typed body of a generic message whose logical type is
/// already known.
pub fn unbuffer_typed_message_body<T: TypedMessageBody + Decodable>(msg: &GenericMessage) -> (r:
    Result<Message<T>, Error>)
    ensures
        match T::decode_len(msg.body@) {
            Some(n) => if n == msg.body@.len() {
                r matches Ok(m) && T::decodes_to(msg.body@, m.body, n) && m.header == msg.header
            } else {
                r == Err::<Message<T>, Error>(Error::TrailingCharacters)
            },
            None => r == Err::<Message<T>, Error>(
                Error::NeedMoreData(BytesRequired::AtLeast(T::shortfall_spec(msg.body@) as usize)),
            ),
        },
{
    Message::try_from_generic(msg)
}

/// Serializes a typed message body, yielding a generic message.
pub fn make_message_body_generic<T: TypedMessageBody + Encodable>(msg: Message<T>) -> (r: Result<
    GenericMessage,
    Error,
>)
    ensures
        msg.body.encoding().len() <= isize::MAX ==> (r matches Ok(m) && m.header == msg.header
            && m.body@ == msg.body.encoding()),
        msg.body.encoding().len() > isize::MAX ==> r == Err::<GenericMessage, Error>(
            Error::OutOfBuffer,
        ),
{
    msg.try_into_generic()
}

/// Serializes the typed body of a sequenced message, keeping its sequence
/// number.
pub fn make_sequenced_message_body_generic<T: TypedMessageBody + Encodable>(
    msg: SequencedMessage<T>,
) -> (r: Result<SequencedGenericMessage, Error>)
    ensures
        msg.message.body.encoding().len() <= isize::MAX ==> (r matches Ok(m) && m.message.header
            == msg.message.header && m.message.body@ == msg.message.body.encoding()
            && m.sequence_number == msg.sequence_number),
        msg.message.body.encoding().len() > isize::MAX ==> r == Err::<
            SequencedGenericMessage,
            Error,
        >(Error::OutOfBuffer),
{
    let seq = msg.sequence_number;
    let generic_msg = msg.message.try_into_generic()?;
    Ok(generic_msg.into_sequenced_message(seq))
}

} // verus!
