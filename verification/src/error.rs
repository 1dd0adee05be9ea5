//! The error taxonomy of the runtime.
//!
//! Every facade call surfaces one of these kinds.  Fatal kinds
//! (`IoError`, `DecodeError`, `HeartbeatTimeout`) end the connection;
//! `ChannelClosed` is scoped to one channel and the connection survives.

use vstd::prelude::*;
use vstd::string::StringExecFns;

verus! {

/// The handshake step at which opening failed.
#[derive(Clone, Copy, Debug, PartialEq, Eq, Structural)]
pub enum HandshakeStage {
    Start,
    Tune,
    Open,
    Auth,
}

/// One error kind of the runtime.
#[derive(Clone, Debug, PartialEq, Eq)]
pub enum ErrorKind {
    /// Opening failed before the runtime tasks were spawned.
    HandshakeFailed { stage: HandshakeStage },
    /// Transport-level read or write failure; fatal.
    IoError,
    /// Malformed frame; fatal.
    DecodeError,
    /// The server went silent past twice the heartbeat interval; fatal.
    HeartbeatTimeout,
    /// Reported to waiters pending when the connection closed.
    ConnectionClosed { code: u16, text: String },
    /// Reported to waiters pending when their channel closed.
    ChannelClosed { code: u16, text: String },
    /// A synchronous request received a response with the wrong key.
    UnexpectedFrame,
    /// All channel ids `1..=channel_max` are in use.
    NoFreeChannel,
    /// A second waiter was registered for a pending `(channel, key)`.
    DuplicateResponder,
    /// The runtime is already shut down and a facade call tried to enqueue.
    QueueFull,
}

impl ErrorKind {
    /// An exact copy of the kind.  Written out so verified callers know
    /// the copy equals the original, which a derived clone would not say.
    pub fn copy_of(&self) -> (r: ErrorKind)
        ensures
            r == *self,
    {
        match self {
            ErrorKind::HandshakeFailed { stage } => ErrorKind::HandshakeFailed { stage: *stage },
            ErrorKind::IoError => ErrorKind::IoError,
            ErrorKind::DecodeError => ErrorKind::DecodeError,
            ErrorKind::HeartbeatTimeout => ErrorKind::HeartbeatTimeout,
            ErrorKind::ConnectionClosed { code, text } => ErrorKind::ConnectionClosed {
                code: *code,
                text: text.clone(),
            },
            ErrorKind::ChannelClosed { code, text } => ErrorKind::ChannelClosed {
                code: *code,
                text: text.clone(),
            },
            ErrorKind::UnexpectedFrame => ErrorKind::UnexpectedFrame,
            ErrorKind::NoFreeChannel => ErrorKind::NoFreeChannel,
            ErrorKind::DuplicateResponder => ErrorKind::DuplicateResponder,
            ErrorKind::QueueFull => ErrorKind::QueueFull,
        }
    }

    /// A short human-readable tag for the kind, for app-level reporting.
    pub fn tag(&self) -> String {
        match self {
            ErrorKind::HandshakeFailed { .. } => String::from_str("handshake failed"),
            ErrorKind::IoError => String::from_str("i/o error"),
            ErrorKind::DecodeError => String::from_str("decode error"),
            ErrorKind::HeartbeatTimeout => String::from_str("heartbeat timeout"),
            ErrorKind::ConnectionClosed { .. } => String::from_str("connection closed"),
            ErrorKind::ChannelClosed { .. } => String::from_str("channel closed"),
            ErrorKind::UnexpectedFrame => String::from_str("unexpected frame"),
            ErrorKind::NoFreeChannel => String::from_str("no free channel"),
            ErrorKind::DuplicateResponder => String::from_str("duplicate responder"),
            ErrorKind::QueueFull => String::from_str("queue full"),
        }
    }
}

} // verus!
