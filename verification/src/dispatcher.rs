//! The per-channel dispatcher's content assembly.
//!
//! Asynchronous server pushes reach the user serially.  A push that
//! starts a content flow (`Basic.Deliver`, `Basic.Return`,
//! `Basic.GetOk`) is followed by one content-header frame announcing
//! the body size and by content-body frames whose lengths sum to it;
//! only the completed message is surfaced.  Other method pushes pass
//! straight through.

use vstd::prelude::*;
use crate::frame::{Frame, Payload};
use crate::method;
use crate::method::MethodKey;

verus! {

/// A completed content message: the starting method, its arguments,
/// and the reassembled body.
pub struct DeliveredMessage {
    pub key: MethodKey,
    pub args: Payload,
    pub body: Vec<u8>,
}

/// The partial-delivery builder.
pub enum AssemblyState {
    /// Nothing pending.
    Idle,
    /// A content-starting method arrived; its header is next.
    AwaitHeader { key: MethodKey, args: Payload },
    /// The header announced `body_size` bytes; `body` holds what has
    /// arrived so far (strictly less than `body_size`).
    AwaitBody { key: MethodKey, args: Payload, body_size: u64, body: Vec<u8> },
}

/// What feeding one frame to the dispatcher produced.
pub enum DispatchOutcome {
    /// The frame was absorbed into the partial message.
    Absorbed,
    /// A content message completed.
    Complete { msg: DeliveredMessage },
    /// A non-content push to hand to the user callback as it is.
    PassThrough { frame: Frame },
    /// The broker broke the content protocol; the frame was dropped
    /// and the partial message discarded.
    ProtocolViolation,
}

pub struct Assembler {
    pub state: AssemblyState,
}

impl Assembler {
    /// In `AwaitBody` the received prefix is strictly short of the
    /// announced size.
    pub open spec fn wf(&self) -> bool {
        match self.state {
            AssemblyState::AwaitBody { body_size, body, .. } => body@.len() < body_size,
            _ => true,
        }
    }

    pub fn new() -> (r: Self)
        ensures
            r.wf(),
            r.state is Idle,
    {
        Assembler { state: AssemblyState::Idle }
    }

    /// Feeds one routed frame.  A content-starting method opens a
    /// flow; its header sets the expected size (a zero size completes
    /// at once); body frames accumulate in arrival order and the
    /// message completes exactly when their lengths sum to the
    /// announced size; a body running past the announced size, a
    /// header or body out of place, or a method interrupting an open
    /// flow is a protocol violation that discards the partial message.
    pub fn feed(&mut self, frame: Frame) -> (r: DispatchOutcome)
        requires
            old(self).wf(),
        ensures
            final(self).wf(),
            match frame {
                Frame::Method { key, payload, .. } => match old(self).state {
                    AssemblyState::Idle => if method::spec_starts_content(key) {
                        &&& r is Absorbed
                        &&& final(self).state matches AssemblyState::AwaitHeader {
                            key: k,
                            args,
                        } && k == key && args == payload
                    } else {
                        &&& r matches DispatchOutcome::PassThrough { frame: f } && f == frame
                        &&& final(self).state is Idle
                    },
                    _ => r is ProtocolViolation && final(self).state is Idle,
                },
                Frame::ContentHeader { body_size, .. } => match old(self).state {
                    AssemblyState::AwaitHeader { key, args } => if body_size == 0 {
                        &&& r matches DispatchOutcome::Complete { msg }
                            && msg.key == key && msg.args == args && msg.body@.len() == 0
                        &&& final(self).state is Idle
                    } else {
                        &&& r is Absorbed
                        &&& final(self).state matches AssemblyState::AwaitBody {
                            key: k,
                            args: a,
                            body_size: s,
                            body,
                        } && k == key && a == args && s == body_size && body@.len() == 0
                    },
                    _ => r is ProtocolViolation && final(self).state is Idle,
                },
                Frame::ContentBody { payload, .. } => match old(self).state {
                    AssemblyState::AwaitBody { key, args, body_size, body } => if body@.len()
                        + payload@.len() < body_size {
                        &&& r is Absorbed
                        &&& final(self).state matches AssemblyState::AwaitBody {
                            key: k,
                            args: a,
                            body_size: s,
                            body: b,
                        } && k == key && a == args && s == body_size && b@ == body@ + payload@
                    } else if body@.len() + payload@.len() == body_size {
                        &&& r matches DispatchOutcome::Complete { msg }
                            && msg.key == key && msg.args == args && msg.body@ == body@ + payload@
                        &&& final(self).state is Idle
                    } else {
                        r is ProtocolViolation && final(self).state is Idle
                    },
                    _ => r is ProtocolViolation && final(self).state is Idle,
                },
                Frame::Heartbeat => r is ProtocolViolation && final(self).state is Idle,
            },
    {
        let mut st = AssemblyState::Idle;
        core::mem::swap(&mut st, &mut self.state);
        match frame {
            Frame::Method { channel, key, payload } => match st {
                AssemblyState::Idle => {
                    if method::starts_content(key) {
                        self.state = AssemblyState::AwaitHeader { key, args: payload };
                        DispatchOutcome::Absorbed
                    } else {
                        DispatchOutcome::PassThrough {
                            frame: Frame::Method { channel, key, payload },
                        }
                    }
                },
                _ => DispatchOutcome::ProtocolViolation,
            },
            Frame::ContentHeader { body_size, .. } => match st {
                AssemblyState::AwaitHeader { key, args } => {
                    if body_size == 0 {
                        DispatchOutcome::Complete {
                            msg: DeliveredMessage { key, args, body: Vec::new() },
                        }
                    } else {
                        self.state = AssemblyState::AwaitBody {
                            key,
                            args,
                            body_size,
                            body: Vec::new(),
                        };
                        DispatchOutcome::Absorbed
                    }
                },
                _ => DispatchOutcome::ProtocolViolation,
            },
            Frame::ContentBody { payload, .. } => match st {
                AssemblyState::AwaitBody { key, args, body_size, body } => {
                    let mut body = body;
                    let mut chunk = payload;
                    let need = body_size - (body.len() as u64);
                    if (chunk.len() as u64) < need {
                        body.append(&mut chunk);
                        self.state = AssemblyState::AwaitBody { key, args, body_size, body };
                        DispatchOutcome::Absorbed
                    } else if chunk.len() as u64 == need {
                        body.append(&mut chunk);
                        DispatchOutcome::Complete {
                            msg: DeliveredMessage { key, args, body },
                        }
                    } else {
                        DispatchOutcome::ProtocolViolation
                    }
                },
                _ => DispatchOutcome::ProtocolViolation,
            },
            Frame::Heartbeat => DispatchOutcome::ProtocolViolation,
        }
    }
}

} // verus!
