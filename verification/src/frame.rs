//! Typed frames as the codec hands them to the runtime.
//!
//! The byte-level codec is an external collaborator: it parses the wire
//! into these frames and serializes them back.  The runtime only looks at
//! the channel, the method key, and the content sizes; method argument
//! payloads stay opaque byte vectors.

use vstd::prelude::*;
use crate::method::MethodKey;

verus! {

/// Arguments of a method frame.  The runtime reads nothing of a method's
/// arguments except the reply code and text of the two close methods,
/// which it forwards to waiters and callbacks; the codec types those and
/// leaves everything else encoded.
#[derive(Debug, PartialEq, Eq)]
pub enum Payload {
    /// Arguments the runtime never inspects.
    Opaque(Vec<u8>),
    /// Arguments of `Connection.Close` / `Channel.Close`.
    Close { code: u16, text: String },
}

impl Payload {
    /// The reply code, when the codec typed the payload as a close.
    pub open spec fn spec_close_code(&self) -> u16 {
        match *self {
            Payload::Close { code, .. } => code,
            Payload::Opaque(_) => 0,
        }
    }

    /// The reply text, when the codec typed the payload as a close.
    pub open spec fn spec_close_text(&self) -> Seq<char> {
        match self {
            Payload::Close { text, .. } => text@,
            Payload::Opaque(_) => Seq::<char>::empty(),
        }
    }

    pub fn close_code(&self) -> (c: u16)
        ensures
            c == self.spec_close_code(),
    {
        match self {
            Payload::Close { code, .. } => *code,
            Payload::Opaque(_) => 0,
        }
    }

    pub fn close_text(&self) -> (t: String)
        ensures
            t@ == self.spec_close_text(),
    {
        match self {
            Payload::Close { text, .. } => text.clone(),
            Payload::Opaque(_) => String::new(),
        }
    }
}

/// One frame on the wire, after the codec has typed it.
#[derive(Debug, PartialEq, Eq)]
#[allow(inconsistent_fields)]
pub enum Frame {
    /// A method frame: a typed AMQP method call or reply.
    Method { channel: u16, key: MethodKey, payload: Payload },
    /// A content-header frame announcing `body_size` bytes of content.
    ContentHeader { channel: u16, body_size: u64 },
    /// One content-body frame.
    ContentBody { channel: u16, payload: Vec<u8> },
    /// A zero-payload keep-alive frame.
    Heartbeat,
}

impl Frame {
    /// The channel the frame belongs to; heartbeats travel on channel 0.
    pub open spec fn spec_channel(&self) -> u16 {
        match *self {
            Frame::Method { channel, .. } => channel,
            Frame::ContentHeader { channel, .. } => channel,
            Frame::ContentBody { channel, .. } => channel,
            Frame::Heartbeat => 0,
        }
    }

    pub fn channel(&self) -> (c: u16)
        ensures
            c == self.spec_channel(),
    {
        match self {
            Frame::Method { channel, .. } => *channel,
            Frame::ContentHeader { channel, .. } => *channel,
            Frame::ContentBody { channel, .. } => *channel,
            Frame::Heartbeat => 0,
        }
    }

    /// A method frame with no arguments, as the runtime's own replies
    /// (`Connection.CloseOk`, `Channel.CloseOk`) are built.
    pub fn method(channel: u16, key: MethodKey) -> (f: Frame)
        ensures
            f matches Frame::Method { channel: c, key: k, payload }
                && c == channel && k == key
                && (payload matches Payload::Opaque(b) && b@ =~= Seq::<u8>::empty()),
    {
        Frame::Method { channel, key, payload: Payload::Opaque(Vec::new()) }
    }
}

} // verus!
