//! The heartbeat monitor: one logical slot holding the send time of the
//! first unanswered ping.
//!
//! The monitor is a pure state machine stepped from outside: a recurring
//! timer calls `tick` with the current time and performs whatever action is
//! decided (sending a ping, logging a diagnostic); a matching pong calls
//! `on_pong`. It is therefore independent of any particular timer or
//! scheduler. A long silence only produces diagnostics — disconnecting is
//! the embedding application's policy.

use vstd::prelude::*;
use crate::constants;
use crate::message::GenericBody;
use crate::message::GenericMessage;
use crate::message::Message;
use crate::time::TimeVal;
use crate::types::SenderId;
use crate::types::TypeId;

verus! {

/// What one timer tick decided.
#[derive(Debug, Clone, Copy, Eq, PartialEq, Hash, Structural)]
pub enum PingStatus {
    /// No ping was outstanding: send a fresh one now.
    SendPing,
    /// A ping is outstanding but the silence is still within the
    /// threshold.
    Waiting,
    /// The first unanswered ping was sent this long ago: report it. The
    /// state is unchanged; the next tick will report again.
    RadioSilence(TimeVal),
}

/// The heartbeat state machine. `Idle` is an empty slot; `Awaiting` holds
/// the send time of the first unanswered ping.
pub struct PingMonitor {
    /// The send time of the first unanswered ping, if one is outstanding.
    pub unanswered: Option<TimeVal>,
    /// Silence beyond this many seconds is reported.
    pub threshold_seconds: i32,
}

impl PingMonitor {
    /// Timestamps handed to the monitor are normalized and non-negative,
    /// and so is whatever it stores.
    pub open spec fn wf(self) -> bool {
        &&& self.unanswered matches Some(t) ==> t.is_normalized() && t.seconds >= 0
        &&& 0 <= self.threshold_seconds
    }

    /// A fresh monitor: idle, with a one-second silence threshold matching
    /// the default timer period.
    pub fn new() -> (r: PingMonitor)
        ensures
            r.wf(),
            r.unanswered is None,
            r.threshold_seconds == 1,
    {
        PingMonitor { unanswered: None, threshold_seconds: 1 }
    }

    pub fn new_with_threshold(threshold_seconds: i32) -> (r: PingMonitor)
        requires
            threshold_seconds >= 0,
        ensures
            r.wf(),
            r.unanswered is None,
            r.threshold_seconds == threshold_seconds,
    {
        PingMonitor { unanswered: None, threshold_seconds }
    }

    /// One timer tick at time `now`. Idle: send a ping and start waiting,
    /// recording `now`. Waiting: report the silence once it exceeds the
    /// threshold, keeping the outstanding marker either way.
    pub fn tick(&mut self, now: TimeVal) -> (r: PingStatus)
        requires
            old(self).wf(),
            now.is_normalized(),
            now.seconds >= 0,
            old(self).unanswered matches Some(t) ==> t.as_microseconds() <= now.as_microseconds(),
        ensures
            final(self).wf(),
            final(self).threshold_seconds == old(self).threshold_seconds,
            old(self).unanswered is None ==> (r == PingStatus::SendPing && final(self).unanswered
                == Some(now)),
            old(self).unanswered matches Some(t) ==> (final(self).unanswered == Some(t) && (if (
            now.as_microseconds() - t.as_microseconds()) > old(self).threshold_seconds * 1_000_000 {
                r matches PingStatus::RadioSilence(d) && d.is_normalized()
                    && d.as_microseconds() == now.as_microseconds() - t.as_microseconds()
            } else {
                r == PingStatus::Waiting
            })),
    {
        match self.unanswered {
            None => {
                self.unanswered = Some(now);
                PingStatus::SendPing
            },
            Some(t) => {
                proof {
                    assert(t.seconds <= now.seconds && (now.microseconds < t.microseconds
                        ==> t.seconds < now.seconds)) by (nonlinear_arith)
                        requires
                            t.is_normalized(),
                            now.is_normalized(),
                            t.as_microseconds() <= now.as_microseconds(),
                    ;
                }
                let mut seconds = now.seconds - t.seconds;
                let mut microseconds = now.microseconds - t.microseconds;
                if microseconds < 0 {
                    seconds = seconds - 1;
                    microseconds = microseconds + 1_000_000;
                }
                let silence = TimeVal::new(seconds, microseconds);
                let over = seconds > self.threshold_seconds || (seconds == self.threshold_seconds
                    && microseconds > 0);
                proof {
                    assert(silence.as_microseconds() == now.as_microseconds()
                        - t.as_microseconds()) by (nonlinear_arith)
                        requires
                            silence.seconds == seconds,
                            silence.microseconds == microseconds,
                            now.is_normalized(),
                            t.is_normalized(),
                            (microseconds == now.microseconds - t.microseconds && seconds
                                == now.seconds - t.seconds) || (microseconds == now.microseconds
                                - t.microseconds + 1_000_000 && seconds == now.seconds - t.seconds
                                - 1),
                    ;
                    assert(over == (silence.as_microseconds() > self.threshold_seconds * 1_000_000))
                        by (nonlinear_arith)
                        requires
                            silence.is_normalized(),
                            0 <= self.threshold_seconds,
                            over == (silence.seconds > self.threshold_seconds || (silence.seconds
                                == self.threshold_seconds && silence.microseconds > 0)),
                    ;
                }
                if over {
                    PingStatus::RadioSilence(silence)
                } else {
                    PingStatus::Waiting
                }
            },
        }
    }

    /// A matching pong arrived: clear the outstanding marker
    /// (Awaiting becomes Idle; a pong while idle is a no-op).
    pub fn on_pong(&mut self)
        requires
            old(self).wf(),
        ensures
            final(self).wf(),
            final(self).unanswered is None,
            final(self).threshold_seconds == old(self).threshold_seconds,
    {
        self.unanswered = None;
    }
}

/// The ping system message a tick's `SendPing` decision turns into: the
/// reserved ping type, the monitor's own sender, an empty body.
pub fn ping_message(sender: SenderId, now: Option<TimeVal>) -> (r: GenericMessage)
    ensures
        r.header.message_type.0 == constants::PING_MESSAGE_ID,
        r.header.sender == sender,
        r.body@ == Seq::<u8>::empty(),
{
    Message::from_header_and_body(
        crate::message::MessageHeader::new(now, TypeId(constants::PING_MESSAGE_ID), sender),
        GenericBody::default(),
    )
}

/// The answer to a ping: the reserved pong type, echoing nothing.
pub fn pong_message(sender: SenderId, now: Option<TimeVal>) -> (r: GenericMessage)
    ensures
        r.header.message_type.0 == constants::PONG_MESSAGE_ID,
        r.header.sender == sender,
        r.body@ == Seq::<u8>::empty(),
{
    Message::from_header_and_body(
        crate::message::MessageHeader::new(now, TypeId(constants::PONG_MESSAGE_ID), sender),
        GenericBody::default(),
    )
}

} // verus!
