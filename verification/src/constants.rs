//! Process-wide protocol constants: wire alignment and the reserved
//! (negative) message-type identities used by protocol infrastructure.

use vstd::prelude::*;

verus! {

/// Every frame on the wire is padded so that its total size is a multiple of
/// this alignment.
pub const ALIGN: usize = 8;

/// Reserved message-type value announcing "this sender ID means this name".
pub const SENDER_DESCRIPTION_ID: i32 = -1;

/// Reserved message-type value announcing "this type ID means this name".
pub const TYPE_DESCRIPTION_ID: i32 = -2;

/// Reserved message-type value describing a datagram channel.
pub const UDP_DESCRIPTION_ID: i32 = -3;

/// Reserved message-type value carrying logging configuration.
pub const LOG_DESCRIPTION_ID: i32 = -4;

/// Reserved message-type value announcing an orderly disconnect.
pub const DISCONNECT_MESSAGE_ID: i32 = -5;

/// Reserved message-type value of a liveness ping.
pub const PING_MESSAGE_ID: i32 = -6;

/// Reserved message-type value of the answer to a ping.
pub const PONG_MESSAGE_ID: i32 = -7;

} // verus!
