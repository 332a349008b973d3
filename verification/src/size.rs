//! Padding and length arithmetic for message framing.
//!
//! A frame's header occupies 20 unpadded bytes; padded to the wire alignment
//! it occupies 24, and the 4-byte sequence number exactly fills that padding.
//! The length field of a frame is the padded header size plus the unpadded
//! body size, and the whole frame is padded to a multiple of the alignment.

use vstd::prelude::*;
use crate::constants::ALIGN;

verus! {

/// The number of bytes the alignment requires after `len` payload bytes.
pub open spec fn spec_padding(len: int) -> int {
    ((ALIGN as int) - len % (ALIGN as int)) % (ALIGN as int)
}

/// `len` rounded up to the next multiple of the alignment.
pub open spec fn spec_padded(len: int) -> int {
    len + spec_padding(len)
}

/// The wire length field that corresponds to an unpadded body size.
pub open spec fn spec_length_field_of(body_len: int) -> int {
    body_len + spec_padded(MessageSize::UNPADDED_HEADER_SIZE as int)
}

/// The unpadded body size that corresponds to a wire length field.
pub open spec fn spec_body_size_of_length_field(length_field: int) -> int {
    length_field - spec_padded(MessageSize::UNPADDED_HEADER_SIZE as int)
}

/// The total number of bytes a frame with this unpadded body size occupies.
pub open spec fn spec_padded_message_size_of(body_len: int) -> int {
    spec_padded(body_len) + spec_padded(MessageSize::UNPADDED_HEADER_SIZE as int)
}

pub(crate) fn compute_padding(len: usize) -> (r: usize)
    ensures
        r == spec_padding(len as int),
{
    let remainder = len % ALIGN;
    if remainder != 0 {
        ALIGN - remainder
    } else {
        0
    }
}

pub(crate) fn padded(len: usize) -> (r: usize)
    requires
        len + spec_padding(len as int) <= usize::MAX,
    ensures
        r == spec_padded(len as int),
{
    len + compute_padding(len)
}

/// All calculations related to the size of a message on the wire, derived
/// from the unpadded size of the message body alone.
#[derive(Debug, Clone, Copy, Eq, PartialEq, Ord, PartialOrd, Hash, Structural)]
pub struct MessageSize {
    /// The unpadded size of the message body only.
    pub unpadded_body_size: usize,
}

/// The type of the length field carried at the start of every frame.
pub type LengthField = u32;

impl MessageSize {
    /// The unpadded size of a frame header: two 32-bit timestamp fields, the
    /// sender ID, the type ID, and the length field itself.
    pub const UNPADDED_HEADER_SIZE: usize = 20;

    /// The padded size of a frame header, not counting the sequence number
    /// that rides in its padding.
    pub const PADDED_HEADER_SIZE: usize = 24;

    /// Builds a `MessageSize` from the unpadded size of a message body only.
    pub fn from_unpadded_body_size(unpadded_body_size: usize) -> (r: MessageSize)
        ensures
            r.unpadded_body_size == unpadded_body_size,
    {
        MessageSize { unpadded_body_size }
    }

    /// Builds a `MessageSize` from the total unpadded size of a message
    /// (header plus body).
    pub fn from_unpadded_message_size(unpadded_message_size: usize) -> (r: MessageSize)
        requires
            unpadded_message_size >= MessageSize::UNPADDED_HEADER_SIZE,
        ensures
            r.unpadded_body_size == unpadded_message_size - MessageSize::UNPADDED_HEADER_SIZE,
    {
        MessageSize::from_unpadded_body_size(
            unpadded_message_size - MessageSize::UNPADDED_HEADER_SIZE,
        )
    }

    /// Builds a `MessageSize` from the length field of a message (padded
    /// header size plus unpadded body size).
    pub fn from_length_field(length_field: LengthField) -> (r: MessageSize)
        requires
            length_field >= MessageSize::PADDED_HEADER_SIZE,
        ensures
            r.unpadded_body_size == spec_body_size_of_length_field(length_field as int),
    {
        proof {
            lemma_padded_header_size();
        }
        MessageSize::from_unpadded_body_size(
            length_field as usize - padded(MessageSize::UNPADDED_HEADER_SIZE),
        )
    }

    /// The unpadded size of just the message body.
    pub fn unpadded_body_size(&self) -> (r: usize)
        ensures
            r == self.unpadded_body_size,
    {
        self.unpadded_body_size
    }

    /// The padded header size plus the unpadded body size.
    ///
    /// This is the value put in the message header's length field.
    pub fn length_field(&self) -> (r: LengthField)
        requires
            spec_length_field_of(self.unpadded_body_size as int) <= u32::MAX,
        ensures
            r == spec_length_field_of(self.unpadded_body_size as int),
    {
        proof {
            lemma_padded_header_size();
        }
        (self.unpadded_body_size + padded(MessageSize::UNPADDED_HEADER_SIZE)) as LengthField
    }

    /// The size of the body once padded out to a multiple of the alignment.
    pub fn padded_body_size(&self) -> (r: usize)
        requires
            spec_padded(self.unpadded_body_size as int) <= usize::MAX,
        ensures
            r == spec_padded(self.unpadded_body_size as int),
    {
        padded(self.unpadded_body_size)
    }

    /// The number of padding bytes required to follow the message body.
    pub fn body_padding(&self) -> (r: usize)
        ensures
            r == spec_padding(self.unpadded_body_size as int),
    {
        compute_padding(self.unpadded_body_size)
    }

    /// The total padded size of a message (header plus body, each padded
    /// individually): the buffer space the message actually requires.
    pub fn padded_message_size(&self) -> (r: usize)
        requires
            spec_padded_message_size_of(self.unpadded_body_size as int) <= usize::MAX,
        ensures
            r == spec_padded_message_size_of(self.unpadded_body_size as int),
    {
        proof {
            lemma_padded_header_size();
        }
        self.padded_body_size() + padded(MessageSize::UNPADDED_HEADER_SIZE)
    }
}

/// Padding never reaches a full alignment unit.
pub proof fn lemma_padding_bounds(len: int)
    requires
        len >= 0,
    ensures
        0 <= spec_padding(len) < ALIGN as int,
        spec_padded(len) % (ALIGN as int) == 0,
{
    let a = ALIGN as int;
    let r = len % a;
    vstd::arithmetic::div_mod::lemma_mod_bound(len, a);
    if r == 0 {
        assert(spec_padded(len) % a == 0) by {
            vstd::arithmetic::div_mod::lemma_mod_adds(len, 0, a);
        };
    } else {
        assert((len + (a - r)) % a == 0) by {
            vstd::arithmetic::div_mod::lemma_mod_adds(len, a - r, a);
        };
    }
}

/// The padded header size is 24 bytes: the 20 unpadded header bytes rounded
/// up to the alignment.
pub proof fn lemma_padded_header_size()
    ensures
        spec_padded(MessageSize::UNPADDED_HEADER_SIZE as int)
            == MessageSize::PADDED_HEADER_SIZE as int,
{
}

/// Law: for every unpadded body size, the length field is the padded header
/// size (24 bytes) plus the body size, and the padded message size is a
/// multiple of the wire alignment.
pub proof fn lemma_length_field_of_body_size(body_len: int)
    requires
        body_len >= 0,
    ensures
        spec_length_field_of(body_len) == 24 + body_len,
        spec_padded_message_size_of(body_len) % (ALIGN as int) == 0,
{
    lemma_padded_header_size();
    let a = ALIGN as int;
    let r = body_len % a;
    vstd::arithmetic::div_mod::lemma_mod_bound(body_len, a);
    if r == 0 {
        assert(spec_padded(body_len) % a == 0) by {
            vstd::arithmetic::div_mod::lemma_mod_adds(body_len, 0, a);
        };
    } else {
        assert((body_len + (a - r)) % a == 0) by {
            vstd::arithmetic::div_mod::lemma_mod_adds(body_len, a - r, a);
        };
    }
}

/// Law: deriving a `MessageSize` from a length field inverts deriving the
/// length field from an unpadded body size, for every body size.
pub proof fn lemma_length_field_roundtrip(body_len: int)
    requires
        body_len >= 0,
    ensures
        spec_body_size_of_length_field(spec_length_field_of(body_len)) == body_len,
{
}

} // verus!
