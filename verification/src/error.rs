//! The error taxonomy of the wire protocol.
//!
//! `NeedMoreData` and `OutOfBuffer` are recoverable: the caller supplies more
//! bytes (or more room) and retries. `TrailingCharacters`, a bad length
//! field, and the handshake failures are fatal for the message or the
//! connection concerned.

use vstd::prelude::*;

verus! {

/// How many more bytes a decode attempt needs before it can make progress.
#[derive(Debug, Clone, Copy, PartialEq, Eq, Hash, Structural)]
pub enum BytesRequired {
    /// The decoder knows the exact shortfall.
    Exactly(usize),
    /// The decoder knows only a lower bound (it has not yet been able to
    /// read the length field).
    AtLeast(usize),
}

/// Everything that can go wrong in framing, primitive (de)serialization,
/// identity translation, and the handshake.
#[derive(Debug, Clone, Copy, PartialEq, Eq, Hash, Structural)]
pub enum Error {
    /// Recoverable: the buffer does not yet hold a complete value. The
    /// caller accumulates at least the indicated number of bytes and retries
    /// the same decode from the unmodified start of the buffer.
    NeedMoreData(BytesRequired),
    /// Recoverable: the destination has fewer free bytes than the encoded
    /// value needs; the caller must supply more capacity.
    OutOfBuffer,
    /// Fatal for the message: bytes remained after a complete value was
    /// parsed from a buffer meant to contain exactly that value.
    TrailingCharacters,
    /// Fatal protocol violation: a frame's length field is smaller than the
    /// padded header or implausibly large.
    InvalidLengthField(u32),
    /// Handshake failure: the preamble did not start with the magic
    /// signature.
    InvalidMagic,
    /// Handshake failure: the peer speaks an unsupported major version (the
    /// payload carries the peer's major version).
    VersionMismatch(u8),
    /// A byte that should have been an ASCII decimal digit was not.
    InvalidDecimalDigit(u8),
    /// A message referenced a peer-assigned type or sender ID that the
    /// translation table cannot resolve yet (its description has not
    /// arrived). The message is dropped or logged; the connection lives on.
    UnresolvedIdentity(i32),
    /// The dense local ID space of a translation table is exhausted.
    TooManyMappings,
}

} // verus!
